//! Update decision and input construction.
//!
//! Given the settlement contract's current head, the committee hash it
//! already anchors for the next period, and the consensus client's pending
//! updates, the decider either declares the contract current, proves every
//! pending update, or applies the anchoring optimization: the first pending
//! committee transition is already committed on-chain, so it is verified and
//! applied locally instead of being proved inside the circuit.

use vstd::prelude::*;

use crate::types::Bytes32;
use crate::types::FinalityUpdate;
use crate::types::ForkSchedule;
use crate::types::ProofInputs;
use crate::types::ProofInputsModel;
use crate::types::StorageRequest;
use crate::types::StoreSnapshot;
use crate::types::SyncCommitteeUpdate;
use crate::types::UpdateModel;
use crate::types::storage_request_models;
use crate::types::update_models;

verus! {

/// A consensus-integrity violation: continuing past one would relay on top of
/// corrupted local state, so the process must stop.
#[derive(Debug)]
pub enum FatalError {
    /// A locally-verified update failed the consensus client's rules.
    InvalidUpdate { reason: String },
}

/// Mathematical model of an update decision.
pub ghost enum DecisionModel {
    /// The contract is already current; prove nothing this cycle.
    NoUpdateNeeded,
    /// Prove every pending update, unchanged and in order.
    ProveAll { updates: Seq<UpdateModel> },
    /// The first pending transition is already anchored on-chain: verify and
    /// apply it locally, and prove only the remaining updates.
    OptimizeFirst { apply: UpdateModel, remaining: Seq<UpdateModel> },
}

/// What the decider must conclude from the given cycle state.
pub open spec fn spec_decide(
    head: u64,
    finality_slot: u64,
    updates: Seq<UpdateModel>,
    chain_next_committee_hash: Seq<u8>,
) -> DecisionModel {
    if finality_slot <= head {
        DecisionModel::NoUpdateNeeded
    } else if updates.len() > 0 && updates[0].next_committee_hash == chain_next_committee_hash {
        DecisionModel::OptimizeFirst { apply: updates[0], remaining: updates.drop_first() }
    } else {
        DecisionModel::ProveAll { updates }
    }
}

/// An update decision, carrying the values the rest of the cycle works on.
pub enum Decision {
    /// The contract is already current; prove nothing this cycle.
    NoUpdateNeeded,
    /// Prove every pending update, unchanged and in order.
    ProveAll { updates: Vec<SyncCommitteeUpdate> },
    /// Verify `apply` against the consensus client's rules, apply it to the
    /// local store, and prove only `remaining`.
    OptimizeFirst { apply: SyncCommitteeUpdate, remaining: Vec<SyncCommitteeUpdate> },
}

impl View for Decision {
    type V = DecisionModel;

    open spec fn view(&self) -> DecisionModel {
        match self {
            Decision::NoUpdateNeeded => DecisionModel::NoUpdateNeeded,
            Decision::ProveAll { updates } => DecisionModel::ProveAll {
                updates: update_models(updates@),
            },
            Decision::OptimizeFirst { apply, remaining } => DecisionModel::OptimizeFirst {
                apply: apply@,
                remaining: update_models(remaining@),
            },
        }
    }
}

/// Decides what this cycle should prove.
///
/// `head` is the contract's last-accepted finalized slot, `finality_slot` the
/// finalized slot the consensus client currently reports, `updates` the
/// pending committee transitions in order, and `chain_next_committee_hash`
/// the committee hash the contract already stores for the period after its
/// head.
pub fn decide_update(
    head: u64,
    finality_slot: u64,
    updates: Vec<SyncCommitteeUpdate>,
    chain_next_committee_hash: &Bytes32,
) -> (d: Decision)
    ensures
        d@ == spec_decide(head, finality_slot, update_models(updates@), chain_next_committee_hash@),
{
    if finality_slot <= head {
        return Decision::NoUpdateNeeded;
    }
    if updates.len() > 0 {
        let anchored = updates[0].next_committee_hash.equals(chain_next_committee_hash);
        if anchored {
            let mut remaining = updates;
            let apply = remaining.remove(0);
            proof {
                assert(update_models(remaining@) =~= update_models(updates@).drop_first());
            }
            return Decision::OptimizeFirst { apply, remaining };
        }
    }
    Decision::ProveAll { updates }
}

/// An order to apply one verified update to the local consensus store.
///
/// Values of this type come only out of [`resolve_optimization`], so holding
/// one witnesses that the consensus client accepted the update.
pub struct ApplyInstruction {
    update: SyncCommitteeUpdate,
}

impl View for ApplyInstruction {
    type V = UpdateModel;

    closed spec fn view(&self) -> UpdateModel {
        self.update@
    }
}

impl ApplyInstruction {
    /// The verified update to hand to the consensus client's apply step.
    pub fn update(self) -> (u: SyncCommitteeUpdate)
        ensures
            u@ == self@,
    {
        self.update
    }
}

/// What the consensus client's verification of an update reported.
pub enum VerifyOutcome {
    Valid,
    /// The client's error, preserved verbatim.
    Invalid { reason: String },
}

/// Judges the consensus client's verification of the update the optimization
/// wants to apply locally.
///
/// An invalid locally-verified update is a consensus-integrity violation, not
/// a transient failure: the result is a fatal error carrying the client's
/// reason verbatim, and no instruction to apply the update is issued.
pub fn resolve_optimization(apply: SyncCommitteeUpdate, outcome: VerifyOutcome) -> (r: Result<
    ApplyInstruction,
    FatalError,
>)
    ensures
        r is Ok <==> outcome is Valid,
        r matches Ok(instruction) ==> instruction@ == apply@,
        r matches Err(e) ==> {
            &&& outcome matches VerifyOutcome::Invalid { reason }
            &&& e matches FatalError::InvalidUpdate { reason: kept }
            &&& kept@ == reason@
        },
{
    match outcome {
        VerifyOutcome::Valid => Ok(ApplyInstruction { update: apply }),
        VerifyOutcome::Invalid { reason } => Err(FatalError::InvalidUpdate { reason }),
    }
}

/// Assembles the canonical claim for the proving backend from the decided
/// update list and the rest of the cycle's state.
///
/// When the optimization ran, `store` must be the snapshot taken after the
/// dropped update was applied, so the claim starts from the synced store.
pub fn build_proof_inputs(
    updates: Vec<SyncCommitteeUpdate>,
    finality_update: FinalityUpdate,
    expected_current_slot: u64,
    store: StoreSnapshot,
    genesis_root: Bytes32,
    forks: ForkSchedule,
    storage_requests: Option<Vec<StorageRequest>>,
) -> (r: ProofInputs)
    ensures
        r@ == (ProofInputsModel {
            sync_committee_updates: update_models(updates@),
            finality_update: finality_update@,
            expected_current_slot,
            store: store@,
            genesis_root: genesis_root@,
            forks: forks@,
            storage_requests: match storage_requests {
                Option::Some(reqs) => Option::Some(storage_request_models(reqs@)),
                Option::None => Option::None,
            },
        }),
{
    ProofInputs {
        sync_committee_updates: updates,
        finality_update,
        expected_current_slot,
        store,
        genesis_root,
        forks,
        storage_requests,
    }
}

/// No-op law: whenever the reported finalized slot does not exceed the
/// contract's head, the decision is `NoUpdateNeeded`, whatever the pending
/// updates hold.
pub proof fn lemma_noop_when_current(
    head: u64,
    finality_slot: u64,
    updates: Seq<UpdateModel>,
    chain_next_committee_hash: Seq<u8>,
)
    requires
        finality_slot <= head,
    ensures
        spec_decide(head, finality_slot, updates, chain_next_committee_hash)
            == DecisionModel::NoUpdateNeeded,
{
}

/// Optimization law, anchored side: when an update is pending, its committee
/// hash equals the hash the contract already stores, and an update is owed,
/// the decision drops exactly the first update from the list to prove and
/// hands that same update out for local application.
pub proof fn lemma_optimization_excludes_first(
    head: u64,
    finality_slot: u64,
    updates: Seq<UpdateModel>,
    chain_next_committee_hash: Seq<u8>,
)
    requires
        head < finality_slot,
        updates.len() > 0,
        updates[0].next_committee_hash == chain_next_committee_hash,
    ensures
        spec_decide(head, finality_slot, updates, chain_next_committee_hash)
            matches DecisionModel::OptimizeFirst { apply, remaining } && {
            &&& apply == updates[0]
            &&& remaining.len() == updates.len() - 1
            &&& forall|i: int| 0 <= i < remaining.len() ==> remaining[i] == updates[i + 1]
        },
{
}

/// Optimization law, unanchored side: when the first pending update's
/// committee hash differs from the hash the contract stores (or none is
/// pending) and an update is owed, every pending update is proved, unchanged
/// and in order.
pub proof fn lemma_no_optimization_keeps_updates(
    head: u64,
    finality_slot: u64,
    updates: Seq<UpdateModel>,
    chain_next_committee_hash: Seq<u8>,
)
    requires
        head < finality_slot,
        updates.len() == 0 || updates[0].next_committee_hash != chain_next_committee_hash,
    ensures
        spec_decide(head, finality_slot, updates, chain_next_committee_hash)
            == (DecisionModel::ProveAll { updates }),
{
}

} // verus!
