//! Remote proving queue: a polling state machine over an external proving
//! service.
//!
//! The service runs two phases for one attempt: a proving session, then a
//! compression session that shrinks the proof to a chain-verifiable form.
//! Each phase is polled on a fixed interval until the service reports
//! `SUCCEEDED` or a terminal failure; the terminal receipt is then fetched by
//! content reference and decoded. The surrounding binary performs the
//! uploads, polls, and downloads, and feeds every answer to [`remote_step`].

use vstd::prelude::*;

use crate::backend::remote_receipt_model;
use crate::types::Receipt;

verus! {

/// Seconds between two polls of a session's status.
pub const REMOTE_POLL_INTERVAL_SECS: u64 = 5;

/// Which session of the attempt is being polled.
#[derive(PartialEq, Eq, Structural, Clone, Copy, Debug)]
pub enum RemotePhase {
    /// The proving session.
    Proving,
    /// The compression session that follows a successful proof.
    Compressing,
}

/// One poll's answer from the proving service, as plain values.
pub struct PollResponse {
    /// The session status string, e.g. `RUNNING` or `SUCCEEDED`.
    pub status: String,
    /// Optional textual state accompanying a running session.
    pub state_msg: Option<String>,
    /// Optional error message accompanying a terminal failure.
    pub error_msg: Option<String>,
    /// Content reference of the receipt, present when compression succeeded.
    pub output_url: Option<String>,
}

/// A failure of the remote proving attempt; fatal for this attempt, retried
/// only by the next operator cycle.
#[derive(Debug)]
pub enum RemoteError {
    /// The service reported a terminal status; status and message preserved
    /// verbatim.
    Workflow { phase: RemotePhase, status: String, error_msg: Option<String> },
    /// The service reported success but provided no receipt reference.
    MissingReceiptUrl,
    /// The downloaded receipt could not be decoded.
    MalformedReceipt { message: String },
}

/// What to do after one poll.
pub enum RemoteStep {
    /// The session is still running: poll the same phase again after the
    /// interval.
    Continue { phase: RemotePhase },
    /// The proving session succeeded: create the compression session.
    BeginCompression,
    /// The compression session succeeded: download the receipt from `url`.
    FetchReceipt { url: String },
    /// The attempt failed.
    Fail { error: RemoteError },
}

/// Two optional strings that hold the same text.
pub open spec fn opt_text_eq(a: Option<String>, b: Option<String>) -> bool {
    match (a, b) {
        (Option::Some(x), Option::Some(y)) => x@ == y@,
        (Option::None, Option::None) => true,
        _ => false,
    }
}

/// Whether a string holds the given text.
fn text_is(s: &String, expected: &str) -> (r: bool)
    ensures
        r == (s@ == expected@),
{
    *s == expected.to_owned()
}

/// Advances the remote attempt by one poll of the service.
///
/// `RUNNING` re-enters the same phase; `SUCCEEDED` moves the proving phase to
/// compression and the compression phase to the receipt download; any other
/// status is terminal and is surfaced verbatim.
pub fn remote_step(phase: RemotePhase, resp: PollResponse) -> (r: RemoteStep)
    ensures
        resp.status@ == "RUNNING"@ <==> r is Continue,
        r matches RemoteStep::Continue { phase: p } ==> p == phase,
        r is BeginCompression <==> phase is Proving && resp.status@ == "SUCCEEDED"@,
        r matches RemoteStep::FetchReceipt { url } ==> {
            &&& phase is Compressing
            &&& resp.status@ == "SUCCEEDED"@
            &&& resp.output_url matches Some(u) && url@ == u@
        },
        phase is Compressing && resp.status@ == "SUCCEEDED"@ && resp.output_url is Some ==> r
            is FetchReceipt,
        r matches RemoteStep::Fail { error } ==> match error {
            RemoteError::Workflow { phase: p, status, error_msg } => {
                &&& p == phase
                &&& status@ == resp.status@
                &&& opt_text_eq(error_msg, resp.error_msg)
                &&& resp.status@ != "RUNNING"@
                &&& resp.status@ != "SUCCEEDED"@
            },
            RemoteError::MissingReceiptUrl => {
                &&& phase is Compressing
                &&& resp.status@ == "SUCCEEDED"@
                &&& resp.output_url is None
            },
            RemoteError::MalformedReceipt { .. } => false,
        },
        resp.status@ != "RUNNING"@ && resp.status@ != "SUCCEEDED"@ ==> r is Fail,
        phase is Compressing && resp.status@ == "SUCCEEDED"@ && resp.output_url is None ==> r
            is Fail,
{
    proof {
        reveal_strlit("RUNNING");
        reveal_strlit("SUCCEEDED");
        assert("RUNNING"@.len() == 7);
        assert("SUCCEEDED"@.len() == 9);
    }
    if text_is(&resp.status, "RUNNING") {
        return RemoteStep::Continue { phase };
    }
    if text_is(&resp.status, "SUCCEEDED") {
        match phase {
            RemotePhase::Proving => RemoteStep::BeginCompression,
            RemotePhase::Compressing => match resp.output_url {
                Option::Some(url) => RemoteStep::FetchReceipt { url },
                Option::None => RemoteStep::Fail { error: RemoteError::MissingReceiptUrl },
            },
        }
    } else {
        RemoteStep::Fail {
            error: RemoteError::Workflow {
                phase,
                status: resp.status,
                error_msg: resp.error_msg,
            },
        }
    }
}

/// Judges the decoding of the downloaded terminal receipt.
///
/// A receipt that decoded to a seal and journal completes the attempt; a
/// decoding failure is fatal for the attempt and carries the decoder's
/// message verbatim.
pub fn remote_receipt_outcome(decoded: Result<Receipt, String>) -> (r: Result<
    Receipt,
    RemoteError,
>)
    ensures
        r is Ok <==> decoded is Ok,
        r matches Ok(receipt) ==> decoded matches Ok(d) && receipt@ == remote_receipt_model(
            d@.seal,
            d@.journal,
        ),
        r matches Err(e) ==> {
            &&& decoded matches Err(message)
            &&& e matches RemoteError::MalformedReceipt { message: kept }
            &&& kept@ == message@
        },
{
    match decoded {
        Result::Ok(receipt) => Ok(receipt),
        Result::Err(message) => Err(RemoteError::MalformedReceipt { message }),
    }
}

/// The lowercase hexadecimal digit for a value below sixteen.
pub open spec fn hex_digit(n: u8) -> char {
    if n < 10 {
        ((('0' as u8) + n) as u8) as char
    } else {
        ((('a' as u8) + (n - 10)) as u8) as char
    }
}

/// The lowercase hexadecimal encoding of a byte string: two digits per byte,
/// high nibble first.
pub open spec fn hex_lower_of(data: Seq<u8>) -> Seq<char>
    decreases data.len(),
{
    if data.len() == 0 {
        Seq::empty()
    } else {
        seq![hex_digit(data.first() / 16), hex_digit(data.first() % 16)] + hex_lower_of(
            data.drop_first(),
        )
    }
}

/// Relies on `hex::encode`: encodes the bytes as lowercase hexadecimal, two
/// digits per byte, a function of the input bytes alone.
#[verifier::external_body]
fn hex_encode(data: &Vec<u8>) -> (r: String)
    ensures
        r@ == hex_lower_of(data@),
{
    hex::encode(data.as_slice())
}

/// The content-derived key under which the program image is uploaded: the
/// lowercase hexadecimal encoding of the image identifier. Uploading under a
/// content-derived key keeps the upload idempotent across attempts.
pub fn image_upload_key(image_id: &Vec<u8>) -> (r: String)
    ensures
        r@ == hex_lower_of(image_id@),
{
    hex_encode(image_id)
}

} // verus!
