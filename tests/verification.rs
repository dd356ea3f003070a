use aetherlock_escrow::{
    canonical_message, check_payload, deposit_funds, initialize_escrow, is_fresh_timestamp,
    record_verification, request_chainlink_verification, signature_is_valid, submit_verification,
    timestamp_bytes, EscrowAccount, EscrowError, EscrowStatus, Identity,
};
use ed25519_dalek::{Keypair, PublicKey, SecretKey, Signer};

const NOW: i64 = 1_700_000_000;

fn id(b: u8) -> Identity {
    Identity::new([b; 32])
}

fn keypair(seed: u8) -> Keypair {
    let secret = SecretKey::from_bytes(&[seed; 32]).unwrap();
    let public = PublicKey::from(&secret);
    Keypair { secret, public }
}

fn agent(kp: &Keypair) -> Identity {
    Identity::new(kp.public.to_bytes())
}

fn sign_payload(kp: &Keypair, escrow_id: [u8; 32], result: bool, evidence: [u8; 32], ts: i64) -> Vec<u8> {
    let msg = canonical_message(&escrow_id, result, &evidence, ts);
    kp.sign(&msg).to_bytes().to_vec()
}

fn funded_escrow(kp: &Keypair) -> EscrowAccount {
    let mut e = initialize_escrow(
        [5; 32], id(1), id(2), id(3), 1_000_000, NOW + 1000, [8; 32], agent(kp), 10, 254,
    )
    .unwrap();
    deposit_funds(&mut e).unwrap();
    e
}

#[test]
fn message_layout_is_fixed() {
    let msg = canonical_message(&[0xaa; 32], true, &[0xbb; 32], 0x0102_0304_0506_0708);
    assert_eq!(msg.len(), 73);
    assert!(msg[..32].iter().all(|b| *b == 0xaa));
    assert_eq!(msg[32], 1);
    assert!(msg[33..65].iter().all(|b| *b == 0xbb));
    assert_eq!(msg[65..], [8, 7, 6, 5, 4, 3, 2, 1]);
    let msg = canonical_message(&[0; 32], false, &[0; 32], -2);
    assert_eq!(msg[32], 0);
    assert_eq!(msg[65..], [0xfe, 0xff, 0xff, 0xff, 0xff, 0xff, 0xff, 0xff]);
}

#[test]
fn timestamp_bytes_match_std() {
    for t in [0i64, 1, -1, 300, -301, i64::MAX, i64::MIN, NOW] {
        assert_eq!(timestamp_bytes(t), t.to_le_bytes().to_vec());
    }
}

#[test]
fn valid_signature_is_accepted() {
    let kp = keypair(42);
    let sig = sign_payload(&kp, [5; 32], true, [9; 32], NOW);
    assert!(signature_is_valid(&agent(&kp), &[5; 32], true, &[9; 32], NOW, &sig));
}

#[test]
fn flipped_escrow_id_bit_is_rejected() {
    let kp = keypair(42);
    let sig = sign_payload(&kp, [5; 32], true, [9; 32], NOW);
    let mut flipped = [5u8; 32];
    flipped[17] ^= 0x10;
    assert!(!signature_is_valid(&agent(&kp), &flipped, true, &[9; 32], NOW, &sig));
}

#[test]
fn flipped_result_is_rejected() {
    let kp = keypair(42);
    let sig = sign_payload(&kp, [5; 32], true, [9; 32], NOW);
    assert!(!signature_is_valid(&agent(&kp), &[5; 32], false, &[9; 32], NOW, &sig));
}

#[test]
fn flipped_evidence_bit_is_rejected() {
    let kp = keypair(42);
    let sig = sign_payload(&kp, [5; 32], true, [9; 32], NOW);
    let mut flipped = [9u8; 32];
    flipped[0] ^= 0x01;
    assert!(!signature_is_valid(&agent(&kp), &[5; 32], true, &flipped, NOW, &sig));
}

#[test]
fn flipped_timestamp_bit_is_rejected() {
    let kp = keypair(42);
    let sig = sign_payload(&kp, [5; 32], true, [9; 32], NOW);
    assert!(!signature_is_valid(&agent(&kp), &[5; 32], true, &[9; 32], NOW ^ (1 << 40), &sig));
    assert!(!signature_is_valid(&agent(&kp), &[5; 32], true, &[9; 32], NOW ^ 1, &sig));
}

#[test]
fn other_key_or_bad_length_is_rejected() {
    let kp = keypair(42);
    let other = keypair(43);
    let sig = sign_payload(&kp, [5; 32], true, [9; 32], NOW);
    assert!(!signature_is_valid(&agent(&other), &[5; 32], true, &[9; 32], NOW, &sig));
    assert!(!signature_is_valid(&agent(&kp), &[5; 32], true, &[9; 32], NOW, &sig[..63]));
    let mut long = sig.clone();
    long.push(0);
    assert!(!signature_is_valid(&agent(&kp), &[5; 32], true, &[9; 32], NOW, &long));
}

#[test]
fn freshness_window_is_five_minutes() {
    assert!(is_fresh_timestamp(NOW - 300, NOW));
    assert!(is_fresh_timestamp(NOW + 300, NOW));
    assert!(!is_fresh_timestamp(NOW - 301, NOW));
    assert!(!is_fresh_timestamp(NOW + 301, NOW));
    assert!(!is_fresh_timestamp(i64::MIN, i64::MAX));
    assert!(!is_fresh_timestamp(i64::MAX, i64::MIN));
}

#[test]
fn payload_checks_in_order() {
    assert_eq!(check_payload(false, NOW - 1000, NOW), Err(EscrowError::InvalidSignature));
    assert_eq!(check_payload(true, NOW - 1000, NOW), Err(EscrowError::TimestampTooOld));
    assert_eq!(check_payload(true, NOW, NOW), Ok(()));
}

#[test]
fn submit_records_signed_result() {
    let kp = keypair(42);
    let mut e = funded_escrow(&kp);
    let sig = sign_payload(&kp, [5; 32], true, [9; 32], NOW - 10);
    let ev = submit_verification(&mut e, agent(&kp), true, [9; 32], NOW - 10, &sig, None, NOW).unwrap();
    assert_eq!(ev.escrow_id, [5; 32]);
    assert!(ev.result);
    assert_eq!(e.status, EscrowStatus::Verified);
    assert_eq!(e.verification_result, Some(true));
    assert_eq!(e.evidence_hash, Some([9; 32]));
}

#[test]
fn stale_timestamp_in_the_past_is_refused() {
    let kp = keypair(42);
    let mut e = funded_escrow(&kp);
    let ts = NOW - 301;
    let sig = sign_payload(&kp, [5; 32], true, [9; 32], ts);
    let r = submit_verification(&mut e, agent(&kp), true, [9; 32], ts, &sig, None, NOW);
    assert_eq!(r.err(), Some(EscrowError::TimestampTooOld));
    assert_eq!(e.status, EscrowStatus::Funded);
    assert_eq!(e.verification_result, None);
}

#[test]
fn stale_timestamp_in_the_future_is_refused() {
    let kp = keypair(42);
    let mut e = funded_escrow(&kp);
    let ts = NOW + 301;
    let sig = sign_payload(&kp, [5; 32], true, [9; 32], ts);
    let r = submit_verification(&mut e, agent(&kp), true, [9; 32], ts, &sig, None, NOW);
    assert_eq!(r.err(), Some(EscrowError::TimestampTooOld));
    assert_eq!(e.status, EscrowStatus::Funded);
}

#[test]
fn tampered_submission_is_refused() {
    let kp = keypair(42);
    let mut e = funded_escrow(&kp);
    let sig = sign_payload(&kp, [5; 32], true, [9; 32], NOW);
    let r = submit_verification(&mut e, agent(&kp), false, [9; 32], NOW, &sig, None, NOW);
    assert_eq!(r.err(), Some(EscrowError::InvalidSignature));
    assert_eq!(e.status, EscrowStatus::Funded);
}

#[test]
fn submission_by_other_agent_is_refused() {
    let kp = keypair(42);
    let other = keypair(7);
    let mut e = funded_escrow(&kp);
    let sig = sign_payload(&other, [5; 32], true, [9; 32], NOW);
    let r = submit_verification(&mut e, agent(&other), true, [9; 32], NOW, &sig, None, NOW);
    assert_eq!(r.err(), Some(EscrowError::UnauthorizedAIAgent));
}

#[test]
fn submission_before_funding_is_refused() {
    let kp = keypair(42);
    let mut e = initialize_escrow(
        [5; 32], id(1), id(2), id(3), 1000, NOW, [8; 32], agent(&kp), 10, 254,
    )
    .unwrap();
    let r = record_verification(&mut e, agent(&kp), true, [9; 32], NOW, true, None, NOW);
    assert_eq!(r.err(), Some(EscrowError::InvalidEscrowState));
}

#[test]
fn submission_during_dispute_flag_is_refused() {
    let kp = keypair(42);
    let mut e = funded_escrow(&kp);
    e.dispute_raised = true;
    let r = record_verification(&mut e, agent(&kp), true, [9; 32], NOW, true, None, NOW);
    assert_eq!(r.err(), Some(EscrowError::DisputeActive));
}

#[test]
fn oracle_request_must_be_answered_by_its_id() {
    let kp = keypair(42);
    let mut e = funded_escrow(&kp);
    let req = request_chainlink_verification(&mut e, [9; 32], [3; 32]).unwrap();
    assert_eq!(req.request_id, [3; 32]);
    assert_eq!(e.status, EscrowStatus::PendingVerification);
    let sig = sign_payload(&kp, [5; 32], false, [9; 32], NOW);
    let r = submit_verification(&mut e, agent(&kp), false, [9; 32], NOW, &sig, Some([4; 32]), NOW);
    assert_eq!(r.err(), Some(EscrowError::InvalidChainlinkRequest));
    let r = submit_verification(&mut e, agent(&kp), false, [9; 32], NOW, &sig, None, NOW);
    assert_eq!(r.err(), Some(EscrowError::InvalidChainlinkRequest));
    assert_eq!(e.status, EscrowStatus::PendingVerification);
    let ev = submit_verification(&mut e, agent(&kp), false, [9; 32], NOW, &sig, Some([3; 32]), NOW).unwrap();
    assert_eq!(ev.request_id, Some([3; 32]));
    assert_eq!(e.status, EscrowStatus::Verified);
    assert_eq!(e.verification_result, Some(false));
}

#[test]
fn oracle_request_needs_funded_escrow() {
    let kp = keypair(42);
    let mut e = funded_escrow(&kp);
    request_chainlink_verification(&mut e, [9; 32], [3; 32]).unwrap();
    let r = request_chainlink_verification(&mut e, [9; 32], [3; 32]);
    assert_eq!(r.err(), Some(EscrowError::InvalidEscrowState));
}
