use helios_operator::backend::LocalProveOutcome;
use helios_operator::backend::ProveError;
use helios_operator::backend::local_outcome;
use helios_operator::market::DryRunOutcome;
use helios_operator::market::DryRunReport;
use helios_operator::market::MarketError;
use helios_operator::market::MarketEvent;
use helios_operator::market::MarketStep;
use helios_operator::market::RequestInput;
use helios_operator::market::SubmittedRequest;
use helios_operator::market::build_market_request;
use helios_operator::market::check_dry_run;
use helios_operator::market::estimate_mcycles;
use helios_operator::market::input_needs_upload;
use helios_operator::market::market_poll_step;
use helios_operator::config::MarketOfferConfig;
use helios_operator::remote::PollResponse;
use helios_operator::remote::RemoteError;
use helios_operator::remote::RemotePhase;
use helios_operator::remote::RemoteStep;
use helios_operator::remote::image_upload_key;
use helios_operator::remote::remote_receipt_outcome;
use helios_operator::remote::remote_step;
use helios_operator::types::Bytes32;
use helios_operator::types::Receipt;

fn hash(byte: u8) -> Bytes32 {
    match Bytes32::from_bytes(vec![byte; 32]) {
        Ok(h) => h,
        Err(_) => panic!("32 bytes must be accepted"),
    }
}

fn poll(status: &str, error_msg: Option<&str>, output_url: Option<&str>) -> PollResponse {
    PollResponse {
        status: status.to_string(),
        state_msg: None,
        error_msg: error_msg.map(|s| s.to_string()),
        output_url: output_url.map(|s| s.to_string()),
    }
}

#[test]
fn local_prover_success_becomes_a_receipt() {
    let r = local_outcome(LocalProveOutcome::Proved {
        seal: b"seal".to_vec(),
        journal: b"journal".to_vec(),
    });
    match r {
        Ok(receipt) => {
            assert_eq!(receipt.seal, b"seal".to_vec());
            assert_eq!(receipt.journal, b"journal".to_vec());
        }
        Err(_) => panic!("a proved outcome is a success"),
    }
}

#[test]
fn local_prover_failure_is_preserved_verbatim() {
    let r = local_outcome(LocalProveOutcome::Failed { message: "unsat circuit".to_string() });
    match r {
        Err(ProveError::ProvingFailed { message }) => assert_eq!(message, "unsat circuit"),
        Ok(_) => panic!("a failed outcome must not produce a receipt"),
    }
}

#[test]
fn running_session_keeps_polling() {
    let r = remote_step(RemotePhase::Proving, poll("RUNNING", None, None));
    assert!(matches!(r, RemoteStep::Continue { phase: RemotePhase::Proving }));
    let r = remote_step(RemotePhase::Compressing, poll("RUNNING", None, None));
    assert!(matches!(r, RemoteStep::Continue { phase: RemotePhase::Compressing }));
}

#[test]
fn successful_proof_starts_compression() {
    let r = remote_step(RemotePhase::Proving, poll("SUCCEEDED", None, None));
    assert!(matches!(r, RemoteStep::BeginCompression));
}

#[test]
fn successful_compression_fetches_the_receipt() {
    let r = remote_step(
        RemotePhase::Compressing,
        poll("SUCCEEDED", None, Some("store://receipt/1")),
    );
    match r {
        RemoteStep::FetchReceipt { url } => assert_eq!(url, "store://receipt/1"),
        _ => panic!("a finished compression must fetch the receipt"),
    }
}

#[test]
fn success_without_receipt_reference_fails() {
    let r = remote_step(RemotePhase::Compressing, poll("SUCCEEDED", None, None));
    assert!(matches!(r, RemoteStep::Fail { error: RemoteError::MissingReceiptUrl }));
}

#[test]
fn terminal_status_is_surfaced_verbatim() {
    let r = remote_step(RemotePhase::Proving, poll("TIMED_OUT", Some("budget exceeded"), None));
    match r {
        RemoteStep::Fail { error: RemoteError::Workflow { phase, status, error_msg } } => {
            assert!(matches!(phase, RemotePhase::Proving));
            assert_eq!(status, "TIMED_OUT");
            assert_eq!(error_msg.as_deref(), Some("budget exceeded"));
        }
        _ => panic!("an unknown terminal status must fail the attempt"),
    }
}

#[test]
fn decoded_receipt_completes_the_attempt() {
    let r = remote_receipt_outcome(Ok(Receipt {
        seal: b"seal".to_vec(),
        journal: b"journal".to_vec(),
    }));
    match r {
        Ok(receipt) => assert_eq!(receipt.journal, b"journal".to_vec()),
        Err(_) => panic!("a decoded receipt is a success"),
    }
}

#[test]
fn malformed_receipt_fails_the_attempt() {
    let r = remote_receipt_outcome(Err("truncated stream".to_string()));
    match r {
        Err(RemoteError::MalformedReceipt { message }) => assert_eq!(message, "truncated stream"),
        _ => panic!("an undecodable receipt must not count as produced"),
    }
}

#[test]
fn upload_key_is_the_lowercase_hex_of_the_image_id() {
    let key = image_upload_key(&vec![0x01, 0x02, 0x03, 0x0f, 0x10]);
    assert_eq!(key, "0102030f10");
    let key = image_upload_key(&vec![0xde, 0xad, 0xbe, 0xef]);
    assert_eq!(key, "deadbeef");
}

#[test]
fn mcycle_estimate_rounds_up() {
    // Two segments of 2^20 cycles: 2097152 cycles, so 3 million-cycle units.
    assert_eq!(estimate_mcycles(&vec![20, 20]), Some(3));
    // 2^20 cycles exceed one unit and round up to two.
    assert_eq!(estimate_mcycles(&vec![20]), Some(2));
    // 2^19 cycles round up to a single unit.
    assert_eq!(estimate_mcycles(&vec![19]), Some(1));
    assert_eq!(estimate_mcycles(&vec![]), Some(0));
}

#[test]
fn mcycle_estimate_refuses_oversized_segments() {
    assert_eq!(estimate_mcycles(&vec![64]), None);
    // Two maximal segments overflow the 64-bit cycle total.
    assert_eq!(estimate_mcycles(&vec![63, 63]), None);
}

#[test]
fn small_inputs_travel_inline() {
    assert!(!input_needs_upload(2048));
    assert!(input_needs_upload(2049));
}

#[test]
fn dry_run_failure_blocks_submission() {
    let r = check_dry_run(DryRunOutcome::Failed { message: "guest trapped".to_string() });
    match r {
        Err(MarketError::DryRunFailed { message }) => assert_eq!(message, "guest trapped"),
        _ => panic!("an unprovable input must not reach the market"),
    }
}

fn offer_config(min: u128, max: u128) -> MarketOfferConfig {
    match MarketOfferConfig::new(1_000, min, max, 10, 200, 100) {
        Ok(c) => c,
        Err(_) => panic!("a floor at or below the ceiling must be accepted"),
    }
}

fn dry_run_report() -> DryRunReport {
    DryRunReport {
        journal: b"expected journal".to_vec(),
        journal_digest: hash(0xaa),
        segment_po2s: vec![20, 20],
    }
}

#[test]
fn request_binds_digest_and_scales_prices() {
    let report = match check_dry_run(DryRunOutcome::Executed { report: dry_run_report() }) {
        Ok(r) => r,
        Err(_) => panic!("an executed dry run is usable"),
    };
    let r = build_market_request(
        "store://image/1".to_string(),
        RequestInput::ByUrl { url: "store://input/1".to_string() },
        hash(0xbb),
        &report,
        &offer_config(2, 5),
    );
    match r {
        Ok(req) => {
            assert_eq!(req.image_url, "store://image/1");
            assert!(matches!(req.input, RequestInput::ByUrl { .. }));
            assert_eq!(req.requirements.image_id.bytes, vec![0xbb; 32]);
            // The requirement digest is the dry run's journal digest.
            assert_eq!(req.requirements.journal_digest.bytes, vec![0xaa; 32]);
            assert!(req.requirements.require_groth16);
            // 3 million-cycle units at 2 and 5 wei per unit.
            assert_eq!(req.offer.min_price_wei, 6);
            assert_eq!(req.offer.max_price_wei, 15);
            assert_eq!(req.offer.lock_stake_wei, 1_000);
            assert_eq!(req.offer.ramp_up_blocks, 10);
            assert_eq!(req.offer.timeout_blocks, 200);
            assert_eq!(req.offer.lock_timeout_blocks, 100);
        }
        Err(_) => panic!("a well-priced request must build"),
    }
}

#[test]
fn unpriceable_request_is_refused() {
    let mut report = dry_run_report();
    report.segment_po2s = vec![70];
    let r = build_market_request(
        "store://image/1".to_string(),
        RequestInput::Inline { bytes: b"input".to_vec() },
        hash(0xbb),
        &report,
        &offer_config(2, 5),
    );
    assert!(matches!(r, Err(MarketError::CycleCountOverflow)));

    let r = build_market_request(
        "store://image/1".to_string(),
        RequestInput::Inline { bytes: b"input".to_vec() },
        hash(0xbb),
        &dry_run_report(),
        &offer_config(u128::MAX, u128::MAX),
    );
    assert!(matches!(r, Err(MarketError::PriceOverflow { .. })));
}

#[test]
fn pending_request_waits_until_expiry() {
    let request = SubmittedRequest { request_id: vec![1, 2, 3], expires_at_block: 500 };
    let journal = b"expected journal".to_vec();
    let r = market_poll_step(&request, &journal, MarketEvent::Pending { current_block: 499 });
    assert!(matches!(r, MarketStep::Wait));
    let r = market_poll_step(&request, &journal, MarketEvent::Pending { current_block: 500 });
    assert!(matches!(r, MarketStep::Expired));
}

#[test]
fn fulfillment_seals_the_dry_run_journal() {
    let request = SubmittedRequest { request_id: vec![1, 2, 3], expires_at_block: 500 };
    let journal = b"expected journal".to_vec();
    let r = market_poll_step(&request, &journal, MarketEvent::Fulfilled { seal: b"m-seal".to_vec() });
    match r {
        MarketStep::Complete { receipt } => {
            assert_eq!(receipt.seal, b"m-seal".to_vec());
            assert_eq!(receipt.journal, b"expected journal".to_vec());
        }
        _ => panic!("a fulfilled request completes the attempt"),
    }
}

#[test]
fn backends_agree_on_the_claimed_journal() {
    let journal = b"shared journal".to_vec();

    let local = match local_outcome(LocalProveOutcome::Proved {
        seal: b"local seal".to_vec(),
        journal: journal.clone(),
    }) {
        Ok(r) => r,
        Err(_) => panic!("local attempt succeeds"),
    };

    let remote = match remote_receipt_outcome(Ok(Receipt {
        seal: b"remote seal".to_vec(),
        journal: journal.clone(),
    })) {
        Ok(r) => r,
        Err(_) => panic!("remote attempt succeeds"),
    };

    let request = SubmittedRequest { request_id: vec![9], expires_at_block: 500 };
    let market = match market_poll_step(
        &request,
        &journal,
        MarketEvent::Fulfilled { seal: b"market seal".to_vec() },
    ) {
        MarketStep::Complete { receipt } => receipt,
        _ => panic!("market attempt succeeds"),
    };

    // Proof form (the seal) differs per backend; the claimed content does not.
    assert_eq!(local.journal, remote.journal);
    assert_eq!(remote.journal, market.journal);
    assert_ne!(local.seal, remote.seal);
    assert_ne!(remote.seal, market.seal);
}
