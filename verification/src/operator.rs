//! The operator loop: a perpetual poll-decide-prove-relay-sleep cycle.
//!
//! Each cycle reads the contract head, decides whether an update is owed,
//! proves it through the configured backend, relays the receipt, and sleeps
//! for the configured interval. Failures in proving or relaying are fatal
//! only to their cycle: the loop proceeds to sleep and reassesses from fresh
//! chain state next interval. Only a consensus-integrity violation halts the
//! operator, because continuing would relay on top of corrupted local state.

use vstd::prelude::*;

use crate::decider::FatalError;
use crate::relay::RelayError;
use crate::types::Bytes32;
use crate::types::ProofInputs;
use crate::types::Receipt;

verus! {

/// Where the operator stands within one cycle.
pub enum CyclePhase {
    /// Read the contract's current head slot.
    FetchHead,
    /// Fetch consensus data and decide what to prove.
    Decide { head: u64 },
    /// Drive the configured proving backend on the assembled claim.
    Prove { head: u64, inputs: ProofInputs },
    /// Submit the receipt and await confirmation.
    Relay { head: u64, receipt: Receipt },
    /// Wait out the configured interval, then start over.
    Sleep,
    /// The process must stop: continuing would corrupt on-chain state.
    Halted { error: FatalError },
}

/// What the current phase's outside work reported.
pub enum CycleEvent {
    HeadFetched { head: u64 },
    /// Transient chain-read failure; retried next cycle.
    HeadFetchFailed { message: String },
    /// The decider finished: a claim to prove, or nothing owed.
    DecisionMade { inputs: Option<ProofInputs> },
    /// Transient consensus-fetch failure; retried next cycle.
    DecisionFailed { message: String },
    /// A locally-verified update failed verification: fatal to the process.
    DecisionFatal { error: FatalError },
    ProofProduced { receipt: Receipt },
    /// The proving attempt failed; retried next cycle.
    ProveFailed { message: String },
    RelaySucceeded { tx_hash: Bytes32 },
    /// The relay reverted or timed out; reassessed next cycle.
    RelayFailed { failure: RelayError },
    SleepFinished,
}

/// Whether an event can answer the outside work of a phase.
pub open spec fn event_fits(phase: CyclePhase, event: CycleEvent) -> bool {
    match (phase, event) {
        (CyclePhase::FetchHead, CycleEvent::HeadFetched { .. }) => true,
        (CyclePhase::FetchHead, CycleEvent::HeadFetchFailed { .. }) => true,
        (CyclePhase::Decide { .. }, CycleEvent::DecisionMade { .. }) => true,
        (CyclePhase::Decide { .. }, CycleEvent::DecisionFailed { .. }) => true,
        (CyclePhase::Decide { .. }, CycleEvent::DecisionFatal { .. }) => true,
        (CyclePhase::Prove { .. }, CycleEvent::ProofProduced { .. }) => true,
        (CyclePhase::Prove { .. }, CycleEvent::ProveFailed { .. }) => true,
        (CyclePhase::Relay { .. }, CycleEvent::RelaySucceeded { .. }) => true,
        (CyclePhase::Relay { .. }, CycleEvent::RelayFailed { .. }) => true,
        (CyclePhase::Sleep, CycleEvent::SleepFinished) => true,
        _ => false,
    }
}

/// Two fatal errors that carry the same content.
pub open spec fn fatal_eq(a: FatalError, b: FatalError) -> bool {
    match (a, b) {
        (
            FatalError::InvalidUpdate { reason: ra },
            FatalError::InvalidUpdate { reason: rb },
        ) => ra@ == rb@,
    }
}

/// Advances the operator by one phase of its cycle.
///
/// A successful answer carries the cycle forward; `NoUpdateNeeded` skips
/// proving and relaying entirely; every per-cycle failure leads to `Sleep`,
/// never to a halt; only a consensus-integrity violation halts the loop.
pub fn cycle_step(phase: CyclePhase, event: CycleEvent) -> (next: CyclePhase)
    requires
        event_fits(phase, event),
    ensures
        next is Halted <==> event is DecisionFatal,
        event matches CycleEvent::HeadFetched { head } ==> next matches CyclePhase::Decide {
            head: h,
        } && h == head,
        event is HeadFetchFailed ==> next is Sleep,
        phase matches CyclePhase::Decide { head } ==> event matches CycleEvent::DecisionMade {
            inputs: Some(inputs),
        } ==> {
            &&& next matches CyclePhase::Prove { head: h, inputs: i }
            &&& h == head
            &&& i@ == inputs@
        },
        event matches CycleEvent::DecisionMade { inputs: None } ==> next is Sleep,
        event is DecisionFailed ==> next is Sleep,
        event matches CycleEvent::DecisionFatal { error } ==> next matches CyclePhase::Halted {
            error: e,
        } && fatal_eq(e, error),
        phase matches CyclePhase::Prove { head, .. } ==> event matches CycleEvent::ProofProduced {
            receipt,
        } ==> {
            &&& next matches CyclePhase::Relay { head: h, receipt: rc }
            &&& h == head
            &&& rc@ == receipt@
        },
        event is ProveFailed ==> next is Sleep,
        event is RelaySucceeded ==> next is Sleep,
        event is RelayFailed ==> next is Sleep,
        event is SleepFinished ==> next is FetchHead,
{
    match event {
        CycleEvent::HeadFetched { head } => CyclePhase::Decide { head },
        CycleEvent::HeadFetchFailed { .. } => CyclePhase::Sleep,
        CycleEvent::DecisionMade { inputs } => match (phase, inputs) {
            (CyclePhase::Decide { head }, Option::Some(inputs)) => CyclePhase::Prove {
                head,
                inputs,
            },
            _ => CyclePhase::Sleep,
        },
        CycleEvent::DecisionFailed { .. } => CyclePhase::Sleep,
        CycleEvent::DecisionFatal { error } => CyclePhase::Halted { error },
        CycleEvent::ProofProduced { receipt } => match phase {
            CyclePhase::Prove { head, .. } => CyclePhase::Relay { head, receipt },
            _ => CyclePhase::Sleep,
        },
        CycleEvent::ProveFailed { .. } => CyclePhase::Sleep,
        CycleEvent::RelaySucceeded { .. } => CyclePhase::Sleep,
        CycleEvent::RelayFailed { .. } => CyclePhase::Sleep,
        CycleEvent::SleepFinished => CyclePhase::FetchHead,
    }
}

/// Head-consistency law: the head slot the relay phase submits with is the
/// head the cycle fetched at its start, carried unchanged through deciding
/// and proving; and the receipt it submits is the one the backend produced.
pub proof fn lemma_relay_uses_decision_head(
    head: u64,
    inputs: ProofInputs,
    receipt: Receipt,
    after_fetch: CyclePhase,
    after_decide: CyclePhase,
    after_prove: CyclePhase,
)
    requires
        call_ensures(
            cycle_step,
            (CyclePhase::FetchHead, CycleEvent::HeadFetched { head }),
            after_fetch,
        ),
        call_ensures(
            cycle_step,
            (after_fetch, CycleEvent::DecisionMade { inputs: Some(inputs) }),
            after_decide,
        ),
        call_ensures(
            cycle_step,
            (after_decide, CycleEvent::ProofProduced { receipt }),
            after_prove,
        ),
    ensures
        after_prove matches CyclePhase::Relay { head: h, receipt: rc } && h == head && rc@
            == receipt@,
{
}

/// Unattended-operation law: whatever a cycle's outside work reports, the
/// loop halts only on a consensus-integrity violation; every other failure
/// leads to `Sleep` and the next interval's reassessment.
pub proof fn lemma_only_fatal_halts(phase: CyclePhase, event: CycleEvent, next: CyclePhase)
    requires
        event_fits(phase, event),
        call_ensures(cycle_step, (phase, event), next),
        !(event is DecisionFatal),
    ensures
        !(next is Halted),
{
}

} // verus!
