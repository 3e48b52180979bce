//! Data model of the proof lifecycle: hashes, consensus messages, the claim
//! handed to a proving backend, and the receipt handed back.

use vstd::prelude::*;

verus! {

/// A 32-byte hash value (a tree-hash root, a storage key, a digest).
///
/// Well-formed values hold exactly 32 bytes; see [`Bytes32::wf`].
#[derive(Debug)]
pub struct Bytes32 {
    pub bytes: Vec<u8>,
}

impl View for Bytes32 {
    type V = Seq<u8>;

    open spec fn view(&self) -> Seq<u8> {
        self.bytes@
    }
}

impl Bytes32 {
    /// A well-formed hash holds exactly 32 bytes.
    pub open spec fn wf(self) -> bool {
        self@.len() == 32
    }

    /// Wraps raw bytes as a hash; accepts exactly 32-byte inputs.
    pub fn from_bytes(bytes: Vec<u8>) -> (r: Result<Bytes32, ValueError>)
        ensures
            bytes@.len() == 32 <==> r is Ok,
            r matches Ok(h) ==> h@ == bytes@ && h.wf(),
    {
        if bytes.len() == 32 {
            Ok(Bytes32 { bytes })
        } else {
            Err(ValueError::WrongLength { expected: 32, got: bytes.len() })
        }
    }

    /// Byte-for-byte equality of two hashes.
    pub fn equals(&self, other: &Bytes32) -> (r: bool)
        ensures
            r == (self@ == other@),
    {
        if self.bytes.len() != other.bytes.len() {
            return false;
        }
        let n = self.bytes.len();
        let mut i: usize = 0;
        while i < n
            invariant
                n == self.bytes.len() == other.bytes.len(),
                0 <= i <= n,
                forall|j: int| 0 <= j < i ==> self@[j] == other@[j],
            decreases n - i,
        {
            if self.bytes[i] != other.bytes[i] {
                return false;
            }
            i = i + 1;
        }
        proof {
            assert(self@ =~= other@);
        }
        true
    }
}

impl Clone for Bytes32 {
    fn clone(&self) -> (r: Self)
        ensures
            r@ == self@,
    {
        Bytes32 { bytes: clone_bytes(&self.bytes) }
    }
}

/// Copies a byte vector; the copy's contents equal the original's.
pub fn clone_bytes(v: &Vec<u8>) -> (r: Vec<u8>)
    ensures
        r@ == v@,
{
    let r = v.clone();
    proof {
        assert forall|i: int| 0 <= i < v@.len() implies r@[i] == v@[i] by {
            assert(cloned::<u8>(v@[i], r@[i]));
        }
        assert(r@ =~= v@);
    }
    r
}

/// A value that does not fit the shape a constructor demands.
#[derive(Debug)]
pub enum ValueError {
    WrongLength { expected: usize, got: usize },
}

/// Mathematical model of a sync-committee update.
pub ghost struct UpdateModel {
    /// Tree-hash root of the update's `next_sync_committee`.
    pub next_committee_hash: Seq<u8>,
    /// Canonical encoding of the full consensus message.
    pub encoded: Seq<u8>,
}

/// A committee transition fetched from the consensus client.
///
/// The consensus client owns the message's structure and verification rules;
/// the operator reads only the tree-hash root of the committee it transitions
/// to, and carries the full message opaquely in its canonical encoding.
pub struct SyncCommitteeUpdate {
    /// Tree-hash root of the update's `next_sync_committee`.
    pub next_committee_hash: Bytes32,
    /// Canonical encoding of the full consensus message.
    pub encoded: Vec<u8>,
}

impl View for SyncCommitteeUpdate {
    type V = UpdateModel;

    open spec fn view(&self) -> UpdateModel {
        UpdateModel {
            next_committee_hash: self.next_committee_hash@,
            encoded: self.encoded@,
        }
    }
}

/// The models of a sequence of updates, in order.
pub open spec fn update_models(s: Seq<SyncCommitteeUpdate>) -> Seq<UpdateModel> {
    s.map_values(|u: SyncCommitteeUpdate| u@)
}

/// Mathematical model of a finality update.
pub ghost struct FinalityModel {
    pub finalized_slot: u64,
    pub encoded: Seq<u8>,
}

/// A proof-carrying message that a consensus checkpoint became irreversible.
///
/// The operator reads only the finalized header's slot; the full message is
/// carried opaquely in its canonical encoding.
pub struct FinalityUpdate {
    /// Slot of the finalized beacon header.
    pub finalized_slot: u64,
    /// Canonical encoding of the full consensus message.
    pub encoded: Vec<u8>,
}

impl View for FinalityUpdate {
    type V = FinalityModel;

    open spec fn view(&self) -> FinalityModel {
        FinalityModel { finalized_slot: self.finalized_slot, encoded: self.encoded@ }
    }
}

/// The consensus client's internal store, snapshotted in its canonical
/// encoding at input-construction time.
pub struct StoreSnapshot {
    pub encoded: Vec<u8>,
}

impl View for StoreSnapshot {
    type V = Seq<u8>;

    open spec fn view(&self) -> Seq<u8> {
        self.encoded@
    }
}

/// The chain's fork schedule, carried in its canonical encoding.
pub struct ForkSchedule {
    pub encoded: Vec<u8>,
}

impl View for ForkSchedule {
    type V = Seq<u8>;

    open spec fn view(&self) -> Seq<u8> {
        self.encoded@
    }
}

/// A request to prove the value of one contract storage slot.
pub struct StorageRequest {
    pub block_number: u64,
    /// 20-byte contract address.
    pub contract_address: Vec<u8>,
    pub storage_slot: Bytes32,
}

/// Mathematical model of a storage request.
pub ghost struct StorageRequestModel {
    pub block_number: u64,
    pub contract_address: Seq<u8>,
    pub storage_slot: Seq<u8>,
}

impl View for StorageRequest {
    type V = StorageRequestModel;

    open spec fn view(&self) -> StorageRequestModel {
        StorageRequestModel {
            block_number: self.block_number,
            contract_address: self.contract_address@,
            storage_slot: self.storage_slot@,
        }
    }
}

/// The models of a sequence of storage requests, in order.
pub open spec fn storage_request_models(s: Seq<StorageRequest>) -> Seq<StorageRequestModel> {
    s.map_values(|r: StorageRequest| r@)
}

/// The canonical claim handed to a proving backend: everything the guest
/// program needs to derive the new consensus state.
pub struct ProofInputs {
    /// Committee transitions to prove, in order, possibly reduced by the
    /// on-chain anchoring optimization.
    pub sync_committee_updates: Vec<SyncCommitteeUpdate>,
    pub finality_update: FinalityUpdate,
    pub expected_current_slot: u64,
    pub store: StoreSnapshot,
    pub genesis_root: Bytes32,
    pub forks: ForkSchedule,
    /// Storage slots whose values the proof should additionally attest to.
    pub storage_requests: Option<Vec<StorageRequest>>,
}

/// Mathematical model of the claim.
pub ghost struct ProofInputsModel {
    pub sync_committee_updates: Seq<UpdateModel>,
    pub finality_update: FinalityModel,
    pub expected_current_slot: u64,
    pub store: Seq<u8>,
    pub genesis_root: Seq<u8>,
    pub forks: Seq<u8>,
    pub storage_requests: Option<Seq<StorageRequestModel>>,
}

impl View for ProofInputs {
    type V = ProofInputsModel;

    open spec fn view(&self) -> ProofInputsModel {
        ProofInputsModel {
            sync_committee_updates: update_models(self.sync_committee_updates@),
            finality_update: self.finality_update@,
            expected_current_slot: self.expected_current_slot,
            store: self.store@,
            genesis_root: self.genesis_root@,
            forks: self.forks@,
            storage_requests: match self.storage_requests {
                Option::Some(reqs) => Option::Some(storage_request_models(reqs@)),
                Option::None => Option::None,
            },
        }
    }
}

/// Mathematical model of a receipt.
pub ghost struct ReceiptModel {
    pub seal: Seq<u8>,
    pub journal: Seq<u8>,
}

/// A verifiable proof: backend-specific seal bytes plus the public journal
/// the settlement contract reads.
pub struct Receipt {
    pub seal: Vec<u8>,
    pub journal: Vec<u8>,
}

impl View for Receipt {
    type V = ReceiptModel;

    open spec fn view(&self) -> ReceiptModel {
        ReceiptModel { seal: self.seal@, journal: self.journal@ }
    }
}

} // verus!
