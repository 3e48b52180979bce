//! Proving marketplace: purchasing a proof through a reverse Dutch auction.
//!
//! The backend never computes a proof itself. It dry-runs the guest program
//! to learn the expected public journal and a cycle count, prices an offer
//! from that count, submits a request binding the program identity and the
//! journal digest, and polls for fulfillment until the request expires. The
//! surrounding binary performs the uploads, the dry run, the submission and
//! the polls, and feeds every answer here as plain values.

use vstd::arithmetic::power2::pow2;
use vstd::prelude::*;

use crate::backend::market_receipt_model;
use crate::config::MarketOfferConfig;
use crate::types::Bytes32;
use crate::types::Receipt;
use crate::types::clone_bytes;

verus! {

/// Seconds between two polls for fulfillment of a submitted request.
pub const MARKET_POLL_INTERVAL_SECS: u64 = 10;

/// Largest encoded input posted inline with a request; anything larger is
/// uploaded and passed by reference.
pub const INLINE_INPUT_MAX_BYTES: usize = 2048;

/// Total cycles of a dry run whose segments have the given power-of-two
/// sizes.
pub open spec fn spec_cycle_sum(po2s: Seq<u8>) -> int
    decreases po2s.len(),
{
    if po2s.len() == 0 {
        0
    } else {
        pow2(po2s.first() as nat) as int + spec_cycle_sum(po2s.drop_first())
    }
}

/// Million-cycle count of a dry run: the cycle sum divided by one million,
/// rounded up.
pub open spec fn spec_mcycles(po2s: Seq<u8>) -> int {
    spec_cycle_sum(po2s) / 1_000_000 + if spec_cycle_sum(po2s) % 1_000_000 != 0 {
        1int
    } else {
        0int
    }
}

proof fn lemma_cycle_sum_concat(a: Seq<u8>, b: Seq<u8>)
    ensures
        spec_cycle_sum(a + b) == spec_cycle_sum(a) + spec_cycle_sum(b),
    decreases a.len(),
{
    if a.len() == 0 {
        assert(a + b =~= b);
    } else {
        assert((a + b).drop_first() =~= a.drop_first() + b);
        lemma_cycle_sum_concat(a.drop_first(), b);
    }
}

proof fn lemma_cycle_sum_nonneg(s: Seq<u8>)
    ensures
        0 <= spec_cycle_sum(s),
    decreases s.len(),
{
    if s.len() > 0 {
        lemma_cycle_sum_nonneg(s.drop_first());
    }
}

proof fn lemma_cycle_sum_push(s: Seq<u8>, x: u8)
    ensures
        spec_cycle_sum(s.push(x)) == spec_cycle_sum(s) + pow2(x as nat),
{
    assert(s.push(x) =~= s + seq![x]);
    lemma_cycle_sum_concat(s, seq![x]);
    assert(seq![x].drop_first() =~= Seq::<u8>::empty());
    assert(seq![x].first() == x);
    assert(spec_cycle_sum(Seq::<u8>::empty()) == 0);
    assert(spec_cycle_sum(seq![x]) == pow2(x as nat) + spec_cycle_sum(seq![x].drop_first()));
}

/// Counts the millions of cycles a dry run with the given segment sizes
/// took, rounding up; the economic parameters of the offer scale with this
/// count.
///
/// Returns `None` exactly when a segment size or the total does not fit the
/// machine arithmetic: a segment of two to the 64th cycles or more, or a
/// total above `u64::MAX`.
pub fn estimate_mcycles(segment_po2s: &Vec<u8>) -> (r: Option<u64>)
    ensures
        r is Some <==> (forall|i: int| 0 <= i < segment_po2s@.len() ==> segment_po2s@[i] < 64)
            && spec_cycle_sum(segment_po2s@) <= u64::MAX,
        r matches Some(m) ==> m == spec_mcycles(segment_po2s@),
{
    let n = segment_po2s.len();
    let mut sum: u64 = 0;
    let mut i: usize = 0;
    while i < n
        invariant
            n == segment_po2s@.len(),
            0 <= i <= n,
            forall|j: int| 0 <= j < i ==> segment_po2s@[j] < 64,
            sum == spec_cycle_sum(segment_po2s@.subrange(0, i as int)),
        decreases n - i,
    {
        let po2 = segment_po2s[i];
        if po2 >= 64 {
            return None;
        }
        proof {
            vstd::bits::lemma_u64_pow2_no_overflow(po2 as nat);
            vstd::bits::lemma_u64_shl_is_mul(1u64, po2 as u64);
        }
        let cycles: u64 = 1u64 << po2;
        let next = match sum.checked_add(cycles) {
            Option::Some(s) => s,
            Option::None => {
                proof {
                    let done = segment_po2s@.subrange(0, i as int);
                    let rest = segment_po2s@.subrange(i + 1, n as int);
                    assert(segment_po2s@ =~= done.push(segment_po2s@[i as int]) + rest);
                    lemma_cycle_sum_push(done, segment_po2s@[i as int]);
                    lemma_cycle_sum_concat(done.push(segment_po2s@[i as int]), rest);
                    lemma_cycle_sum_nonneg(rest);
                }
                return None;
            },
        };
        proof {
            let done = segment_po2s@.subrange(0, i as int);
            lemma_cycle_sum_push(done, segment_po2s@[i as int]);
            assert(done.push(segment_po2s@[i as int]) =~= segment_po2s@.subrange(0, i + 1));
        }
        sum = next;
        i = i + 1;
    }
    proof {
        assert(segment_po2s@.subrange(0, n as int) =~= segment_po2s@);
    }
    let whole: u64 = sum / 1_000_000;
    let part: u64 = sum % 1_000_000;
    if part != 0 {
        Some(whole + 1)
    } else {
        Some(whole)
    }
}

/// What the pre-flight dry run of the guest program produced.
pub struct DryRunReport {
    /// The public journal the guest committed during the dry run.
    pub journal: Vec<u8>,
    /// The proving runtime's digest of that journal.
    pub journal_digest: Bytes32,
    /// Power-of-two sizes of the execution's segments.
    pub segment_po2s: Vec<u8>,
}

/// What the pre-flight dry run reported: the guest either executed, or is
/// not provable as given.
pub enum DryRunOutcome {
    Executed { report: DryRunReport },
    /// The executor's message, preserved verbatim.
    Failed { message: String },
}

/// A failure of the marketplace attempt; fatal for this attempt, retried
/// only by the next operator cycle.
#[derive(Debug)]
pub enum MarketError {
    /// The pre-flight dry run failed: the input is not provable and no
    /// request may be submitted for it.
    DryRunFailed { message: String },
    /// The cycle count does not fit the machine arithmetic.
    CycleCountOverflow,
    /// A price bound times the cycle count does not fit the machine
    /// arithmetic.
    PriceOverflow { price_per_mcycle_wei: u128 },
}

/// Judges the pre-flight dry run. A request may only be built from a run
/// that executed: spending funds on an unprovable input is caught here,
/// before submission.
pub fn check_dry_run(outcome: DryRunOutcome) -> (r: Result<DryRunReport, MarketError>)
    ensures
        r is Ok <==> outcome is Executed,
        r matches Ok(report) ==> {
            &&& outcome matches DryRunOutcome::Executed { report: given }
            &&& report.journal@ == given.journal@
            &&& report.journal_digest@ == given.journal_digest@
            &&& report.segment_po2s@ == given.segment_po2s@
        },
        r matches Err(e) ==> {
            &&& outcome matches DryRunOutcome::Failed { message }
            &&& e matches MarketError::DryRunFailed { message: kept }
            &&& kept@ == message@
        },
{
    match outcome {
        DryRunOutcome::Executed { report } => Ok(report),
        DryRunOutcome::Failed { message } => Err(MarketError::DryRunFailed { message }),
    }
}

/// How the encoded guest input travels with the request.
pub enum RequestInput {
    /// Posted on chain with the request itself.
    Inline { bytes: Vec<u8> },
    /// Uploaded to the content store and passed by reference.
    ByUrl { url: String },
}

/// Decides how the encoded guest input travels: inline when it is at most
/// [`INLINE_INPUT_MAX_BYTES`] long, by reference otherwise.
pub fn input_needs_upload(encoded_len: usize) -> (r: bool)
    ensures
        r == (encoded_len > INLINE_INPUT_MAX_BYTES),
{
    encoded_len > INLINE_INPUT_MAX_BYTES
}

/// What the market must verify before paying out: the program identity, the
/// digest of the journal the fulfilling proof must commit, and the required
/// proof form.
pub struct MarketRequirements {
    pub image_id: Bytes32,
    pub journal_digest: Bytes32,
    /// The proof must arrive in the compressed, chain-verifiable form.
    pub require_groth16: bool,
}

/// The economic terms of a request: a reverse Dutch auction whose price
/// rises from floor to ceiling over the ramp-up window.
pub struct MarketOffer {
    pub lock_stake_wei: u128,
    /// Price floor for the whole request, in wei.
    pub min_price_wei: u128,
    /// Price ceiling for the whole request, in wei.
    pub max_price_wei: u128,
    pub ramp_up_blocks: u64,
    pub timeout_blocks: u64,
    pub lock_timeout_blocks: u64,
}

/// A fully assembled proving request, ready for submission.
pub struct MarketRequest {
    pub image_url: String,
    pub input: RequestInput,
    pub requirements: MarketRequirements,
    pub offer: MarketOffer,
}

/// Assembles a proving request from the uploaded image, the placed input,
/// the dry-run report and the configured auction terms.
///
/// The requirement digest is taken from the dry-run report itself, so a
/// mismatch between the dry-run journal and the digest the market will check
/// cannot arise: it is ruled out here, before submission. Prices scale the
/// configured per-million-cycle bounds by the dry run's million-cycle count.
pub fn build_market_request(
    image_url: String,
    input: RequestInput,
    image_id: Bytes32,
    dry_run: &DryRunReport,
    cfg: &MarketOfferConfig,
) -> (r: Result<MarketRequest, MarketError>)
    requires
        cfg.wf(),
    ensures
        r is Ok <==> {
            &&& forall|i: int|
                0 <= i < dry_run.segment_po2s@.len() ==> dry_run.segment_po2s@[i] < 64
            &&& spec_cycle_sum(dry_run.segment_po2s@) <= u64::MAX
            &&& cfg.min_price_per_mcycle_wei * spec_mcycles(dry_run.segment_po2s@) <= u128::MAX
            &&& cfg.max_price_per_mcycle_wei * spec_mcycles(dry_run.segment_po2s@) <= u128::MAX
        },
        r matches Ok(req) ==> {
            &&& req.image_url@ == image_url@
            &&& match (req.input, input) {
                (RequestInput::Inline { bytes: kept }, RequestInput::Inline { bytes }) => kept@
                    == bytes@,
                (RequestInput::ByUrl { url: kept }, RequestInput::ByUrl { url }) => kept@ == url@,
                _ => false,
            }
            &&& req.requirements.image_id@ == image_id@
            &&& req.requirements.journal_digest@ == dry_run.journal_digest@
            &&& req.requirements.require_groth16
            &&& req.offer.lock_stake_wei == cfg.lock_stake_wei
            &&& req.offer.min_price_wei == cfg.min_price_per_mcycle_wei * spec_mcycles(
                dry_run.segment_po2s@,
            )
            &&& req.offer.max_price_wei == cfg.max_price_per_mcycle_wei * spec_mcycles(
                dry_run.segment_po2s@,
            )
            &&& req.offer.min_price_wei <= req.offer.max_price_wei
            &&& req.offer.ramp_up_blocks == cfg.ramp_up_blocks
            &&& req.offer.timeout_blocks == cfg.timeout_blocks
            &&& req.offer.lock_timeout_blocks == cfg.lock_timeout_blocks
        },
        r matches Err(e) ==> match e {
            MarketError::CycleCountOverflow => !((forall|i: int|
                0 <= i < dry_run.segment_po2s@.len() ==> dry_run.segment_po2s@[i] < 64)
                && spec_cycle_sum(dry_run.segment_po2s@) <= u64::MAX),
            MarketError::PriceOverflow { price_per_mcycle_wei } => {
                ||| price_per_mcycle_wei == cfg.min_price_per_mcycle_wei
                    && cfg.min_price_per_mcycle_wei * spec_mcycles(dry_run.segment_po2s@)
                    > u128::MAX
                ||| price_per_mcycle_wei == cfg.max_price_per_mcycle_wei
                    && cfg.max_price_per_mcycle_wei * spec_mcycles(dry_run.segment_po2s@)
                    > u128::MAX
            },
            MarketError::DryRunFailed { .. } => false,
        },
{
    let mcycles: u64 = match estimate_mcycles(&dry_run.segment_po2s) {
        Option::Some(m) => m,
        Option::None => {
            return Err(MarketError::CycleCountOverflow);
        },
    };
    let min_price_wei: u128 = match cfg.min_price_per_mcycle_wei.checked_mul(mcycles as u128) {
        Option::Some(p) => p,
        Option::None => {
            return Err(
                MarketError::PriceOverflow {
                    price_per_mcycle_wei: cfg.min_price_per_mcycle_wei,
                },
            );
        },
    };
    let max_price_wei: u128 = match cfg.max_price_per_mcycle_wei.checked_mul(mcycles as u128) {
        Option::Some(p) => p,
        Option::None => {
            return Err(
                MarketError::PriceOverflow {
                    price_per_mcycle_wei: cfg.max_price_per_mcycle_wei,
                },
            );
        },
    };
    proof {
        assert(min_price_wei <= max_price_wei) by (nonlinear_arith)
            requires
                min_price_wei == cfg.min_price_per_mcycle_wei * mcycles,
                max_price_wei == cfg.max_price_per_mcycle_wei * mcycles,
                cfg.min_price_per_mcycle_wei <= cfg.max_price_per_mcycle_wei,
                0 <= mcycles,
        ;
    }
    Ok(
        MarketRequest {
            image_url,
            input,
            requirements: MarketRequirements {
                image_id,
                journal_digest: Bytes32 { bytes: clone_bytes(&dry_run.journal_digest.bytes) },
                require_groth16: true,
            },
            offer: MarketOffer {
                lock_stake_wei: cfg.lock_stake_wei,
                min_price_wei,
                max_price_wei,
                ramp_up_blocks: cfg.ramp_up_blocks,
                timeout_blocks: cfg.timeout_blocks,
                lock_timeout_blocks: cfg.lock_timeout_blocks,
            },
        },
    )
}

/// A request the market accepted: its identifier and the block at which it
/// expires unfulfilled.
pub struct SubmittedRequest {
    /// Market-assigned request identifier, carried opaquely.
    pub request_id: Vec<u8>,
    pub expires_at_block: u64,
}

/// One fulfillment poll's answer from the market.
pub enum MarketEvent {
    /// A prover fulfilled the request with a seal over the required journal.
    Fulfilled { seal: Vec<u8> },
    /// Not fulfilled yet; the chain is at `current_block`.
    Pending { current_block: u64 },
}

/// What to do after one fulfillment poll.
pub enum MarketStep {
    /// Poll again after the interval.
    Wait,
    /// The request expired unfulfilled: the attempt fails; settlement of the
    /// auction economics stays with the market.
    Expired,
    /// The attempt is complete.
    Complete { receipt: Receipt },
}

/// Advances a submitted request by one fulfillment poll.
///
/// A fulfillment completes the attempt with a receipt assembling the
/// prover's seal over the dry run's journal; an unfulfilled request waits
/// until its expiry block is reached, and expires at that point.
pub fn market_poll_step(
    request: &SubmittedRequest,
    dry_run_journal: &Vec<u8>,
    event: MarketEvent,
) -> (r: MarketStep)
    ensures
        r matches MarketStep::Complete { receipt } ==> {
            &&& event matches MarketEvent::Fulfilled { seal }
            &&& receipt@ == market_receipt_model(seal@, dry_run_journal@)
        },
        event is Fulfilled ==> r is Complete,
        event matches MarketEvent::Pending { current_block } ==> {
            &&& (r is Expired <==> current_block >= request.expires_at_block)
            &&& (r is Wait <==> current_block < request.expires_at_block)
        },
{
    match event {
        MarketEvent::Fulfilled { seal } => MarketStep::Complete {
            receipt: Receipt { seal, journal: clone_bytes(dry_run_journal) },
        },
        MarketEvent::Pending { current_block } => {
            if current_block >= request.expires_at_block {
                MarketStep::Expired
            } else {
                MarketStep::Wait
            }
        },
    }
}

} // verus!
