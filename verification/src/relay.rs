//! Relaying a proof to the settlement contract.
//!
//! The relayer submits `update(seal, journal, head)` and then demands a
//! minimum number of confirmations within a bounded time. Several relayers
//! may race to submit the same update; the contract reverts the losers, and
//! a mined-but-reverted transaction must surface as a failure, never as a
//! success. The surrounding binary signs, sends and watches the transaction,
//! and feeds the observed outcome to [`judge_relay`].

use vstd::prelude::*;

use crate::types::Bytes32;
use crate::types::Receipt;

verus! {

/// Confirmations a relay transaction must gather before it counts.
pub const REQUIRED_CONFIRMATIONS: u64 = 3;

/// Seconds the relayer waits for those confirmations before giving up.
pub const CONFIRMATION_TIMEOUT_SECS: u64 = 60;

/// An update transaction ready to send: the receipt's seal and journal, the
/// head slot the proof claims to update from, the sender's transaction
/// sequence number, and the confirmation policy.
pub struct RelaySubmission {
    pub seal: Vec<u8>,
    pub journal: Vec<u8>,
    /// The contract head read at decision time; the proof's embedded
    /// previous head must still match it on chain, else the contract
    /// reverts.
    pub head: u64,
    pub nonce: u64,
    pub required_confirmations: u64,
    pub timeout_secs: u64,
}

/// Builds the update transaction for a receipt, consuming it: a receipt is
/// produced once per proving attempt and submitted once.
pub fn prepare_submission(receipt: Receipt, head: u64, nonce: u64) -> (r: RelaySubmission)
    ensures
        r.seal@ == receipt@.seal,
        r.journal@ == receipt@.journal,
        r.head == head,
        r.nonce == nonce,
        r.required_confirmations == REQUIRED_CONFIRMATIONS,
        r.timeout_secs == CONFIRMATION_TIMEOUT_SECS,
{
    RelaySubmission {
        seal: receipt.seal,
        journal: receipt.journal,
        head,
        nonce,
        required_confirmations: REQUIRED_CONFIRMATIONS,
        timeout_secs: CONFIRMATION_TIMEOUT_SECS,
    }
}

/// What the chain reported about the submitted transaction.
pub enum TxOutcome {
    /// The transaction gathered the required confirmations; `reverted` tells
    /// whether the contract rejected it.
    Confirmed { reverted: bool, tx_hash: Bytes32 },
    /// The confirmations did not arrive within the bounded wait.
    TimedOut,
}

/// A relay that did not take effect; the next operator cycle reassesses
/// from fresh chain state.
#[derive(Debug)]
pub enum RelayError {
    /// The transaction mined but the contract reverted it: the proof was
    /// stale (its embedded previous head no longer matched the chain) or
    /// another relayer already advanced the head.
    TransactionReverted { tx_hash: Bytes32 },
    /// No confirmation within the bounded wait; success must not be assumed.
    ConfirmationTimeout,
    /// The transaction could not be submitted or watched at all: a transient
    /// chain-access failure, raised by the submitting edge, never by
    /// [`judge_relay`].
    SubmissionFailed { message: String },
}

/// Judges the observed outcome of the relay transaction.
///
/// Success is reported exactly for a transaction that was confirmed and not
/// reverted. A mined-but-reverted transaction — the expected outcome when a
/// proof went stale or a concurrent relayer won the race — is surfaced as an
/// error, never swallowed as a success; so is a confirmation timeout.
pub fn judge_relay(outcome: TxOutcome) -> (r: Result<Bytes32, RelayError>)
    ensures
        r is Ok <==> outcome matches TxOutcome::Confirmed { reverted: false, .. },
        r matches Ok(h) ==> outcome matches TxOutcome::Confirmed { reverted, tx_hash } && !reverted
            && h@ == tx_hash@,
        r matches Err(e) ==> match e {
            RelayError::TransactionReverted { tx_hash: kept } => outcome matches
                TxOutcome::Confirmed { reverted, tx_hash } && reverted && kept@ == tx_hash@,
            RelayError::ConfirmationTimeout => outcome is TimedOut,
            RelayError::SubmissionFailed { .. } => false,
        },
{
    match outcome {
        TxOutcome::Confirmed { reverted, tx_hash } => {
            if reverted {
                Err(RelayError::TransactionReverted { tx_hash })
            } else {
                Ok(tx_hash)
            }
        },
        TxOutcome::TimedOut => Err(RelayError::ConfirmationTimeout),
    }
}

/// Stale-proof law: a confirmed-but-reverted transaction is judged an error
/// carrying the transaction hash, for every hash; a relay reports success
/// only for a confirmed, non-reverted transaction.
pub proof fn lemma_revert_never_succeeds(outcome: TxOutcome)
    requires
        outcome matches TxOutcome::Confirmed { reverted, .. } && reverted,
    ensures
        forall|h: Bytes32| !call_ensures(judge_relay, (outcome,), Result::Ok(h)),
{
}

} // verus!
