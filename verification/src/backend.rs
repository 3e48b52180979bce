//! Proving backends: what each one claims about the receipt it returns.
//!
//! Three backends turn serialized proof inputs into a receipt: local
//! synchronous proving, a polling remote queue ([`crate::remote`]), and a
//! proving marketplace ([`crate::market`]). The proof seal each produces is
//! backend-specific; the public journal is not, and the models here pin down
//! how each backend assembles its receipt so that the claimed content can be
//! compared across backends.

use vstd::prelude::*;

use crate::types::Receipt;
use crate::types::ReceiptModel;

verus! {

/// The receipt the local backend assembles from the prover's seal and
/// journal.
pub open spec fn local_receipt_model(seal: Seq<u8>, journal: Seq<u8>) -> ReceiptModel {
    ReceiptModel { seal, journal }
}

/// The receipt the remote queue assembles from the downloaded proof's seal
/// and journal.
pub open spec fn remote_receipt_model(seal: Seq<u8>, journal: Seq<u8>) -> ReceiptModel {
    ReceiptModel { seal, journal }
}

/// The receipt the marketplace backend assembles: the fulfilling prover's
/// seal over the journal the pre-flight dry run produced.
pub open spec fn market_receipt_model(seal: Seq<u8>, dry_run_journal: Seq<u8>) -> ReceiptModel {
    ReceiptModel { seal, journal: dry_run_journal }
}

/// What the in-process prover reported for one proving attempt.
pub enum LocalProveOutcome {
    /// The prover returned a seal and a public journal.
    Proved { seal: Vec<u8>, journal: Vec<u8> },
    /// The prover failed; its message, preserved verbatim.
    Failed { message: String },
}

/// A proving attempt that produced no receipt; fatal for the cycle, retried
/// only by the next one.
#[derive(Debug)]
pub enum ProveError {
    /// The backend's failure message, preserved verbatim.
    ProvingFailed { message: String },
}

/// Judges one synchronous in-process proving attempt.
///
/// The input was already decided to be valid, so no retry happens here: a
/// prover failure is surfaced verbatim as a fatal error for this attempt.
pub fn local_outcome(outcome: LocalProveOutcome) -> (r: Result<Receipt, ProveError>)
    ensures
        r is Ok <==> outcome is Proved,
        r matches Ok(receipt) ==> outcome matches LocalProveOutcome::Proved { seal, journal }
            && receipt@ == local_receipt_model(seal@, journal@),
        r matches Err(e) ==> {
            &&& outcome matches LocalProveOutcome::Failed { message }
            &&& e matches ProveError::ProvingFailed { message: kept }
            &&& kept@ == message@
        },
{
    match outcome {
        LocalProveOutcome::Proved { seal, journal } => Ok(Receipt { seal, journal }),
        LocalProveOutcome::Failed { message } => Err(ProveError::ProvingFailed { message }),
    }
}

/// Substitutability law: the three backends differ in the seal they attach,
/// never in the claimed content. Receipts assembled from the same public
/// journal carry that journal unchanged, whichever backend produced the seal.
pub proof fn lemma_backend_substitutability(
    journal: Seq<u8>,
    local_seal: Seq<u8>,
    remote_seal: Seq<u8>,
    market_seal: Seq<u8>,
)
    ensures
        local_receipt_model(local_seal, journal).journal == journal,
        remote_receipt_model(remote_seal, journal).journal == journal,
        market_receipt_model(market_seal, journal).journal == journal,
        local_receipt_model(local_seal, journal).journal == remote_receipt_model(
            remote_seal,
            journal,
        ).journal,
        remote_receipt_model(remote_seal, journal).journal == market_receipt_model(
            market_seal,
            journal,
        ).journal,
{
}

} // verus!
