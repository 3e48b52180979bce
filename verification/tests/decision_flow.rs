use helios_operator::decider::Decision;
use helios_operator::decider::FatalError;
use helios_operator::decider::VerifyOutcome;
use helios_operator::decider::build_proof_inputs;
use helios_operator::decider::decide_update;
use helios_operator::decider::resolve_optimization;
use helios_operator::operator::CycleEvent;
use helios_operator::operator::CyclePhase;
use helios_operator::operator::cycle_step;
use helios_operator::relay::RelayError;
use helios_operator::relay::TxOutcome;
use helios_operator::relay::judge_relay;
use helios_operator::relay::prepare_submission;
use helios_operator::types::Bytes32;
use helios_operator::types::FinalityUpdate;
use helios_operator::types::ForkSchedule;
use helios_operator::types::Receipt;
use helios_operator::types::StoreSnapshot;
use helios_operator::types::SyncCommitteeUpdate;

fn hash(byte: u8) -> Bytes32 {
    match Bytes32::from_bytes(vec![byte; 32]) {
        Ok(h) => h,
        Err(_) => panic!("32 bytes must be accepted"),
    }
}

fn update(hash_byte: u8, body: &[u8]) -> SyncCommitteeUpdate {
    SyncCommitteeUpdate { next_committee_hash: hash(hash_byte), encoded: body.to_vec() }
}

#[test]
fn head_equal_to_finalized_slot_needs_no_update() {
    let d = decide_update(100, 100, vec![update(1, b"u0")], &hash(1));
    assert!(matches!(d, Decision::NoUpdateNeeded));
}

#[test]
fn head_past_finalized_slot_needs_no_update() {
    let d = decide_update(200, 164, vec![], &hash(9));
    assert!(matches!(d, Decision::NoUpdateNeeded));
}

#[test]
fn anchored_first_update_is_dropped_and_applied() {
    // head=100, finalized=164, the single pending update's committee hash
    // matches what the contract already stores for the next period.
    let d = decide_update(100, 164, vec![update(7, b"u0")], &hash(7));
    match d {
        Decision::OptimizeFirst { apply, remaining } => {
            assert_eq!(apply.encoded, b"u0".to_vec());
            assert_eq!(apply.next_committee_hash.bytes, vec![7u8; 32]);
            assert!(remaining.is_empty());

            // The verified update is handed out for local application...
            let instruction = match resolve_optimization(apply, VerifyOutcome::Valid) {
                Ok(i) => i,
                Err(_) => panic!("a valid update must yield an instruction"),
            };
            assert_eq!(instruction.update().encoded, b"u0".to_vec());

            // ...and zero updates go to the proving backend.
            let inputs = build_proof_inputs(
                remaining,
                FinalityUpdate { finalized_slot: 164, encoded: b"fin".to_vec() },
                170,
                StoreSnapshot { encoded: b"store-after-apply".to_vec() },
                hash(3),
                ForkSchedule { encoded: b"forks".to_vec() },
                None,
            );
            assert!(inputs.sync_committee_updates.is_empty());
            assert_eq!(inputs.finality_update.finalized_slot, 164);
            assert_eq!(inputs.expected_current_slot, 170);
            assert_eq!(inputs.store.encoded, b"store-after-apply".to_vec());
        }
        _ => panic!("the anchored transition must take the optimization path"),
    }
}

#[test]
fn unanchored_first_update_stays_unmodified() {
    let d = decide_update(100, 164, vec![update(7, b"u0"), update(8, b"u1")], &hash(9));
    match d {
        Decision::ProveAll { updates } => {
            assert_eq!(updates.len(), 2);
            assert_eq!(updates[0].encoded, b"u0".to_vec());
            assert_eq!(updates[0].next_committee_hash.bytes, vec![7u8; 32]);
            assert_eq!(updates[1].encoded, b"u1".to_vec());
        }
        _ => panic!("without anchoring every update must be proved"),
    }
}

#[test]
fn empty_update_list_proves_nothing_extra() {
    let d = decide_update(100, 164, vec![], &hash(9));
    match d {
        Decision::ProveAll { updates } => assert!(updates.is_empty()),
        _ => panic!("an owed update without transitions still proves finality"),
    }
}

#[test]
fn invalid_locally_verified_update_is_fatal() {
    let r = resolve_optimization(
        update(7, b"u0"),
        VerifyOutcome::Invalid { reason: "bad signature".to_string() },
    );
    match r {
        Err(FatalError::InvalidUpdate { reason }) => assert_eq!(reason, "bad signature"),
        Ok(_) => panic!("an invalid update must never yield an apply instruction"),
    }
}

#[test]
fn reverted_transaction_is_reported_not_swallowed() {
    let r = judge_relay(TxOutcome::Confirmed { reverted: true, tx_hash: hash(5) });
    match r {
        Err(RelayError::TransactionReverted { tx_hash }) => {
            assert_eq!(tx_hash.bytes, vec![5u8; 32]);
        }
        _ => panic!("a mined-but-reverted relay must surface as a revert"),
    }
}

#[test]
fn confirmed_transaction_succeeds() {
    let r = judge_relay(TxOutcome::Confirmed { reverted: false, tx_hash: hash(5) });
    match r {
        Ok(tx_hash) => assert_eq!(tx_hash.bytes, vec![5u8; 32]),
        Err(_) => panic!("a confirmed, non-reverted relay is a success"),
    }
}

#[test]
fn confirmation_timeout_is_an_error() {
    assert!(matches!(judge_relay(TxOutcome::TimedOut), Err(RelayError::ConfirmationTimeout)));
}

#[test]
fn submission_carries_receipt_and_policy() {
    let receipt = Receipt { seal: b"seal".to_vec(), journal: b"journal".to_vec() };
    let s = prepare_submission(receipt, 100, 41);
    assert_eq!(s.seal, b"seal".to_vec());
    assert_eq!(s.journal, b"journal".to_vec());
    assert_eq!(s.head, 100);
    assert_eq!(s.nonce, 41);
    assert_eq!(s.required_confirmations, 3);
    assert_eq!(s.timeout_secs, 60);
}

#[test]
fn reverted_relay_puts_the_loop_to_sleep() {
    let receipt = Receipt { seal: b"seal".to_vec(), journal: b"journal".to_vec() };
    let phase = CyclePhase::Relay { head: 100, receipt };
    let next = cycle_step(
        phase,
        CycleEvent::RelayFailed { failure: RelayError::TransactionReverted { tx_hash: hash(5) } },
    );
    assert!(matches!(next, CyclePhase::Sleep));
}

#[test]
fn happy_cycle_walks_every_phase() {
    let next = cycle_step(CyclePhase::FetchHead, CycleEvent::HeadFetched { head: 100 });
    let head = match next {
        CyclePhase::Decide { head } => head,
        _ => panic!("a fetched head moves the cycle to deciding"),
    };
    assert_eq!(head, 100);

    let inputs = build_proof_inputs(
        vec![],
        FinalityUpdate { finalized_slot: 164, encoded: b"fin".to_vec() },
        170,
        StoreSnapshot { encoded: b"store".to_vec() },
        hash(3),
        ForkSchedule { encoded: b"forks".to_vec() },
        None,
    );
    let next = cycle_step(next, CycleEvent::DecisionMade { inputs: Some(inputs) });
    assert!(matches!(next, CyclePhase::Prove { head: 100, .. }));

    let receipt = Receipt { seal: b"seal".to_vec(), journal: b"journal".to_vec() };
    let next = cycle_step(next, CycleEvent::ProofProduced { receipt });
    assert!(matches!(next, CyclePhase::Relay { head: 100, .. }));

    let next = cycle_step(next, CycleEvent::RelaySucceeded { tx_hash: hash(5) });
    assert!(matches!(next, CyclePhase::Sleep));

    let next = cycle_step(next, CycleEvent::SleepFinished);
    assert!(matches!(next, CyclePhase::FetchHead));
}

#[test]
fn nothing_owed_skips_proving_and_relaying() {
    let phase = CyclePhase::Decide { head: 100 };
    let next = cycle_step(phase, CycleEvent::DecisionMade { inputs: None });
    assert!(matches!(next, CyclePhase::Sleep));
}

#[test]
fn transient_failures_never_halt_the_loop() {
    let next = cycle_step(
        CyclePhase::FetchHead,
        CycleEvent::HeadFetchFailed { message: "rpc down".to_string() },
    );
    assert!(matches!(next, CyclePhase::Sleep));

    let next = cycle_step(
        CyclePhase::Decide { head: 100 },
        CycleEvent::DecisionFailed { message: "beacon fetch failed".to_string() },
    );
    assert!(matches!(next, CyclePhase::Sleep));

    let receipt = Receipt { seal: b"seal".to_vec(), journal: b"journal".to_vec() };
    let next = cycle_step(
        CyclePhase::Relay { head: 100, receipt },
        CycleEvent::RelayFailed {
            failure: RelayError::SubmissionFailed { message: "rpc down".to_string() },
        },
    );
    assert!(matches!(next, CyclePhase::Sleep));
}

#[test]
fn consensus_integrity_violation_halts_the_loop() {
    let next = cycle_step(
        CyclePhase::Decide { head: 100 },
        CycleEvent::DecisionFatal {
            error: FatalError::InvalidUpdate { reason: "bad signature".to_string() },
        },
    );
    match next {
        CyclePhase::Halted { error: FatalError::InvalidUpdate { reason } } => {
            assert_eq!(reason, "bad signature");
        }
        _ => panic!("an invalid locally-verified update must halt the operator"),
    }
}
