use zkvm_prover::claim::{Claim, ExitCode};
use zkvm_prover::digest::{Digest, encode_hex, sha256_digest};
use zkvm_prover::error::ProverError;
use zkvm_prover::factory::{Prover, ProverOpts, get_prover_server};
use zkvm_prover::prover::{ProverServer, RecursionProver};
use zkvm_prover::receipt::{
    CompositeReceipt, FakeReceipt, Groth16Receipt, InnerReceipt, VerifierContext,
};
use zkvm_prover::session::{FieldVal, ImageState, Segment, Session, SessionAssumption};

fn digest_of_byte(b: u8) -> Digest {
    Digest::from_bytes(vec![b; 32])
}

fn image(pc: u32, root_byte: u8) -> ImageState {
    ImageState { pc, root: digest_of_byte(root_byte) }
}

fn split_segment(index: u32, pre: &ImageState, post: &ImageState) -> Segment {
    Segment {
        index,
        po2: 4,
        cycles: 4,
        pre_state: pre.duplicate(),
        post_state: post.duplicate(),
        exit_code: ExitCode::SystemSplit,
        journal_digest: None,
        assumptions: Vec::new(),
        trace: vec![0, 1, 2, 3],
    }
}

fn terminal_segment(
    index: u32,
    pre: &ImageState,
    post: &ImageState,
    journal: Option<&Vec<u8>>,
    assumptions: Vec<Digest>,
) -> Segment {
    Segment {
        index,
        po2: 4,
        cycles: 4,
        pre_state: pre.duplicate(),
        post_state: post.duplicate(),
        exit_code: ExitCode::Halted(0),
        journal_digest: journal.map(sha256_digest),
        assumptions,
        trace: vec![0, 1, 2, 3],
    }
}

fn one_segment_session(journal: Option<Vec<u8>>) -> Session {
    let pre = image(0x4000, 1);
    let post = image(0x5000, 2);
    let seg = terminal_segment(0, &pre, &post, journal.as_ref(), Vec::new());
    Session { segments: vec![seg], exit_code: ExitCode::Halted(0), journal, assumptions: Vec::new() }
}

fn poseidon_prover() -> Prover {
    let opts = ProverOpts { hashfn: "poseidon".to_string(), dev_mode: false };
    get_prover_server(&opts).unwrap()
}

#[test]
fn hex_encoding_of_known_bytes() {
    let d = Digest::from_bytes((0u8..32).collect());
    let h = d.to_hex();
    assert_eq!(
        h,
        "000102030405060708090a0b0c0d0e0f101112131415161718191a1b1c1d1e1f"
    );
    assert_eq!(encode_hex(&vec![0xab, 0x01]), "ab01");
}

#[test]
fn sha256_of_abc_matches_reference_digest() {
    let d = sha256_digest(&b"abc".to_vec());
    assert_eq!(
        encode_hex(&d.bytes),
        "ba7816bf8f01cfea414140de5dae2223b00361a396177a9cb410ff61f20015ad"
    );
}

#[test]
fn sha256_depends_on_input() {
    let a = sha256_digest(&b"abc".to_vec());
    let b = sha256_digest(&b"abd".to_vec());
    assert!(!a.equals(&b));
    assert!(a.equals(&sha256_digest(&b"abc".to_vec())));
}

#[test]
fn prepare_globals_layout() {
    let pre = ImageState { pc: 0x12345678, root: Digest::from_bytes((0u8..32).collect()) };
    let post = image(0x5000, 2);
    let seg = split_segment(0, &pre, &post);
    let io = seg.prepare_globals();
    assert_eq!(io.len(), 138);
    for i in 0..32 {
        assert_eq!(io[i], FieldVal::Val(0));
    }
    assert_eq!(io[32], FieldVal::Val(0x78));
    assert_eq!(io[33], FieldVal::Val(0x56));
    assert_eq!(io[34], FieldVal::Val(0x34));
    assert_eq!(io[35], FieldVal::Val(0x12));
    for i in 0..32 {
        assert_eq!(io[36 + i], FieldVal::Val(i as u32));
    }
    for i in 68..138 {
        assert_eq!(io[i], FieldVal::Invalid);
    }
}

#[test]
fn compress_empty_composite_is_malformed() {
    let prover = poseidon_prover();
    let composite = CompositeReceipt {
        segments: Vec::new(),
        assumptions: Vec::new(),
        journal_digest: None,
    };
    match prover.compress(&composite) {
        Err(ProverError::MalformedComposite) => {}
        other => panic!("expected malformed-composite error, got {:?}", other.is_ok()),
    }
}

#[test]
fn compress_rejects_fake_assumption() {
    let prover = poseidon_prover();
    let ctx = VerifierContext::default();
    let pre = image(0x4000, 1);
    let post = image(0x5000, 2);
    let claim = split_segment(0, &pre, &post).get_claim();
    let seg = split_segment(0, &pre, &post);
    let sr = seg.prove(&ctx).unwrap();
    let composite = CompositeReceipt {
        segments: vec![sr],
        assumptions: vec![InnerReceipt::Fake(FakeReceipt { claim })],
        journal_digest: None,
    };
    match prover.compress(&composite) {
        Err(ProverError::UnsupportedFakeAssumption) => {}
        _ => panic!("expected unsupported fake-assumption error"),
    }
}

#[test]
fn compress_rejects_groth16_assumption() {
    let prover = poseidon_prover();
    let ctx = VerifierContext::default();
    let pre = image(0x4000, 1);
    let post = image(0x5000, 2);
    let claim = split_segment(0, &pre, &post).get_claim();
    let seg = split_segment(0, &pre, &post);
    let sr = seg.prove(&ctx).unwrap();
    let composite = CompositeReceipt {
        segments: vec![sr],
        assumptions: vec![InnerReceipt::Groth16(Groth16Receipt { seal: vec![0u8; 4], claim })],
        journal_digest: None,
    };
    match prover.compress(&composite) {
        Err(ProverError::UnsupportedGroth16Assumption) => {}
        _ => panic!("expected unsupported foreign-assumption error"),
    }
}

#[test]
fn join_of_adjacent_lifts_gives_continuation_claim() {
    let prover = poseidon_prover();
    let ctx = VerifierContext::default();
    let s0 = image(0x4000, 1);
    let s1 = image(0x4100, 2);
    let s2 = image(0x4200, 3);
    let seg_a = split_segment(0, &s0, &s1);
    let seg_b = terminal_segment(1, &s1, &s2, None, Vec::new());
    let ra = seg_a.prove(&ctx).unwrap();
    let rb = seg_b.prove(&ctx).unwrap();
    let la = prover.lift(&ra).unwrap();
    let lb = prover.lift(&rb).unwrap();
    let joined = prover.join(&la, &lb).unwrap();
    let expected = Claim {
        pre: s0.digest(),
        post: s2.digest(),
        exit_code: ExitCode::Halted(0),
        journal_digest: None,
        assumptions: Vec::new(),
    };
    assert!(joined.claim.digest().equals(&expected.digest()));
}

#[test]
fn join_in_reverse_order_fails() {
    let prover = poseidon_prover();
    let ctx = VerifierContext::default();
    let s0 = image(0x4000, 1);
    let s1 = image(0x4100, 2);
    let s2 = image(0x4200, 3);
    let seg_a = split_segment(0, &s0, &s1);
    let seg_b = terminal_segment(1, &s1, &s2, None, Vec::new());
    let la = prover.lift(&seg_a.prove(&ctx).unwrap()).unwrap();
    let lb = prover.lift(&seg_b.prove(&ctx).unwrap()).unwrap();
    assert!(prover.join(&lb, &la).is_err());
}

#[test]
fn resolve_discharges_first_assumption_and_rejects_wrong_proof() {
    let prover = poseidon_prover();
    let ctx = VerifierContext::default();

    // The assumed execution, proven separately.
    let a_pre = image(0x8000, 7);
    let a_post = image(0x8100, 8);
    let assumed = terminal_segment(0, &a_pre, &a_post, None, Vec::new());
    let assumed_digest = assumed.get_claim().digest();
    let assumption_proof = prover.lift(&assumed.prove(&ctx).unwrap()).unwrap();

    // The conditional execution, whose terminal claim lists it.
    let pre = image(0x4000, 1);
    let post = image(0x5000, 2);
    let conditional_seg = terminal_segment(0, &pre, &post, None, vec![assumed_digest]);
    let conditional = prover.lift(&conditional_seg.prove(&ctx).unwrap()).unwrap();
    assert_eq!(conditional.claim.assumptions.len(), 1);

    let resolved = prover.resolve(&conditional, &assumption_proof).unwrap();
    assert_eq!(resolved.claim.assumptions.len(), 0);

    // A proof of a different claim does not discharge it.
    let other = terminal_segment(0, &image(0x9000, 9), &image(0x9100, 10), None, Vec::new());
    let wrong_proof = prover.lift(&other.prove(&ctx).unwrap()).unwrap();
    match prover.resolve(&conditional, &wrong_proof) {
        Err(ProverError::ClaimMismatch { .. }) => {}
        _ => panic!("expected a claim mismatch"),
    }
}

#[test]
fn sha256_suite_yields_composite_poseidon_yields_succinct() {
    let ctx = VerifierContext::default();
    let session = one_segment_session(Some(vec![1, 2, 3]));

    let sha = get_prover_server(&ProverOpts { hashfn: "sha-256".to_string(), dev_mode: false })
        .unwrap();
    let receipt = sha.prove_session(&ctx, &session).unwrap();
    assert!(matches!(receipt.inner, InnerReceipt::Composite(_)));

    let poseidon = poseidon_prover();
    let receipt = poseidon.prove_session(&ctx, &session).unwrap();
    assert!(matches!(receipt.inner, InnerReceipt::Succinct(_)));
}

#[test]
fn unrecognized_hashfn_is_rejected_by_name() {
    let opts = ProverOpts { hashfn: "blake".to_string(), dev_mode: false };
    match get_prover_server(&opts) {
        Err(e @ ProverError::UnsupportedHashfn { .. }) => {
            assert_eq!(e.message(), "unsupported hashfn: blake");
        }
        _ => panic!("expected an unsupported-hashfn error"),
    }
}

#[test]
fn dev_mode_returns_structurally_valid_fake_receipt() {
    let ctx = VerifierContext::default();
    let session = one_segment_session(Some(vec![9, 9]));
    let prover = get_prover_server(&ProverOpts {
        hashfn: "poseidon".to_string(),
        dev_mode: true,
    })
    .unwrap();
    let receipt = prover.prove_session(&ctx, &session).unwrap();
    assert_eq!(receipt.journal, vec![9, 9]);
    match &receipt.inner {
        InnerReceipt::Fake(f) => {
            let expected = session.get_claim().unwrap();
            assert!(f.claim.digest().equals(&expected.digest()));
        }
        _ => panic!("expected a fake receipt in dev mode"),
    }
    // No real cryptographic verification took place: the fake receipt
    // does not pass the real integrity check.
    assert!(receipt.verify_integrity_with_context(&ctx).is_err());
}

#[test]
fn two_segment_poseidon_session_end_to_end() {
    let ctx = VerifierContext::default();
    let s0 = image(0x4000, 1);
    let s1 = image(0x4100, 2);
    let s2 = image(0x4200, 3);
    let journal = vec![5, 6, 7, 8];
    let seg0 = split_segment(0, &s0, &s1);
    let seg1 = terminal_segment(1, &s1, &s2, Some(&journal), Vec::new());
    let session = Session {
        segments: vec![seg0, seg1],
        exit_code: ExitCode::Halted(0),
        journal: Some(journal.clone()),
        assumptions: Vec::new(),
    };
    let receipt = session.prove().unwrap();
    assert!(matches!(receipt.inner, InnerReceipt::Succinct(_)));
    assert_eq!(receipt.journal, journal);

    // Independently recompute the claim digest from the session's
    // recorded pre-image, post-image and exit status.
    let expected = Claim {
        pre: s0.digest(),
        post: s2.digest(),
        exit_code: ExitCode::Halted(0),
        journal_digest: Some(sha256_digest(&journal)),
        assumptions: Vec::new(),
    };
    let got = receipt.get_claim().unwrap();
    assert!(got.digest().equals(&expected.digest()));
    assert!(receipt.verify_integrity_with_context(&ctx).is_ok());
}

#[test]
fn session_with_proven_assumption_compresses() {
    let ctx = VerifierContext::default();
    let prover = poseidon_prover();
    let assumed = terminal_segment(0, &image(0x8000, 7), &image(0x8100, 8), None, Vec::new());
    let assumed_digest = assumed.get_claim().digest();
    let assumption_proof = prover.lift(&assumed.prove(&ctx).unwrap()).unwrap();

    let pre = image(0x4000, 1);
    let post = image(0x5000, 2);
    let seg = terminal_segment(0, &pre, &post, None, vec![assumed_digest]);
    let session = Session {
        segments: vec![seg],
        exit_code: ExitCode::Halted(0),
        journal: None,
        assumptions: vec![SessionAssumption::Proven(assumption_proof)],
    };
    let receipt = prover.prove_session(&ctx, &session).unwrap();
    assert!(matches!(receipt.inner, InnerReceipt::Succinct(_)));
    assert!(receipt.verify_integrity_with_context(&ctx).is_ok());
}

#[test]
fn unresolved_assumption_fails_the_session() {
    let ctx = VerifierContext::default();
    let prover = poseidon_prover();
    let missing = digest_of_byte(3);
    let pre = image(0x4000, 1);
    let post = image(0x5000, 2);
    let seg = terminal_segment(0, &pre, &post, None, vec![missing.duplicate()]);
    let session = Session {
        segments: vec![seg],
        exit_code: ExitCode::Halted(0),
        journal: None,
        assumptions: vec![SessionAssumption::Unresolved(missing)],
    };
    match prover.prove_session(&ctx, &session) {
        Err(ProverError::UnresolvedAssumption) => {}
        _ => panic!("expected an unresolved-assumption error"),
    }
}

#[test]
fn oversized_trace_is_rejected() {
    let ctx = VerifierContext::default();
    let prover = poseidon_prover();
    let mut seg = split_segment(0, &image(0x4000, 1), &image(0x5000, 2));
    seg.cycles = 100;
    seg.trace = vec![0; 100];
    match prover.prove_segment(&ctx, &seg) {
        Err(ProverError::TraceTooLarge { cycles, limit }) => {
            assert_eq!(cycles, 100);
            assert_eq!(limit, 16);
        }
        _ => panic!("expected a trace-too-large error"),
    }
}

#[test]
fn inconsistent_session_claim_is_a_mismatch() {
    let ctx = VerifierContext::default();
    let prover = poseidon_prover();
    // The terminal segment halts with user exit code 0, but the session
    // records exit code 1: the composite cannot match the session claim.
    let mut session = one_segment_session(None);
    session.exit_code = ExitCode::Halted(1);
    match prover.prove_session(&ctx, &session) {
        Err(ProverError::ClaimMismatch { expected, actual }) => {
            assert!(!expected.equals(&actual));
            let expected_hex = encode_hex(&expected.bytes);
            let actual_hex = encode_hex(&actual.bytes);
            let err = ProverError::ClaimMismatch { expected, actual };
            assert_eq!(
                err.message(),
                format!(
                    "session and receipt claim do not match: session {}, receipt {}",
                    expected_hex, actual_hex
                )
            );
        }
        _ => panic!("expected a claim mismatch"),
    }
}

#[test]
fn context_must_accept_the_suite() {
    let restricted = VerifierContext { suites: vec!["sha-256".to_string()] };
    let prover = poseidon_prover();
    let seg = split_segment(0, &image(0x4000, 1), &image(0x5000, 2));
    assert!(prover.prove_segment(&restricted, &seg).is_err());
    let full = VerifierContext::default();
    assert!(prover.prove_segment(&full, &seg).is_ok());
}

#[test]
fn identity_p254_keeps_the_claim() {
    let ctx = VerifierContext::default();
    let prover = poseidon_prover();
    let seg = terminal_segment(0, &image(0x4000, 1), &image(0x5000, 2), None, Vec::new());
    let lifted = prover.lift(&seg.prove(&ctx).unwrap()).unwrap();
    let rehashed = prover.identity_p254(&lifted).unwrap();
    assert_eq!(rehashed.hashfn, "poseidon_254");
    assert!(rehashed.claim.digest().equals(&lifted.claim.digest()));
}

#[test]
fn peak_memory_usage_is_reported() {
    let prover = poseidon_prover();
    assert_eq!(prover.get_peak_memory_usage(), 0);
}
