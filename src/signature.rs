use vstd::prelude::*;
use crate::error::EscrowError;
use crate::identity::Identity;

verus! {

/// The longest distance, in seconds, between a signed timestamp and now.
pub const FRESHNESS_WINDOW: i64 = 300;

/// The 64-bit two's-complement pattern of `t`, read as an unsigned number.
pub open spec fn twos_complement(t: i64) -> u64 {
    if t >= 0 {
        t as u64
    } else {
        (t + 0x1_0000_0000_0000_0000) as u64
    }
}

/// The eight little-endian bytes of `x`.
pub open spec fn le_bytes(x: u64) -> Seq<u8> {
    seq![
        (x & 0xff) as u8,
        ((x >> 8u64) & 0xff) as u8,
        ((x >> 16u64) & 0xff) as u8,
        ((x >> 24u64) & 0xff) as u8,
        ((x >> 32u64) & 0xff) as u8,
        ((x >> 40u64) & 0xff) as u8,
        ((x >> 48u64) & 0xff) as u8,
        ((x >> 56u64) & 0xff) as u8,
    ]
}

/// The byte that encodes a verification result.
pub open spec fn result_byte(result: bool) -> u8 {
    if result {
        1u8
    } else {
        0u8
    }
}

/// The canonical message that a verifier signs: the escrow id, one byte for the
/// result, the evidence hash and the timestamp in eight little-endian bytes,
/// in this order and with no delimiters.
pub open spec fn verification_message(
    escrow_id: Seq<u8>,
    result: bool,
    evidence_hash: Seq<u8>,
    timestamp: i64,
) -> Seq<u8> {
    escrow_id + seq![result_byte(result)] + evidence_hash + le_bytes(twos_complement(timestamp))
}

/// Whether a signed timestamp lies within the freshness window around `now`.
pub open spec fn is_fresh(timestamp: i64, now: i64) -> bool {
    -FRESHNESS_WINDOW <= now - timestamp <= FRESHNESS_WINDOW
}

/// Whether `signature` is a valid Ed25519 signature, in the strict sense, of
/// `message` under `public_key`.
pub uninterp spec fn signature_valid(public_key: Seq<u8>, message: Seq<u8>, signature: Seq<u8>) -> bool;

/// The outcome of the payload checks: the signature is checked, then the
/// timestamp; both must pass.
pub open spec fn payload_error(signature_ok: bool, timestamp: i64, now: i64) -> Option<EscrowError> {
    if !signature_ok {
        Some(EscrowError::InvalidSignature)
    } else if !is_fresh(timestamp, now) {
        Some(EscrowError::TimestampTooOld)
    } else {
        None
    }
}

/// Relies on ed25519-dalek 1.0.1: `PublicKey::from_bytes` parses the key,
/// `Signature::from_bytes` parses the signature and refuses any length but 64,
/// and `PublicKey::verify_strict` checks it over the message. The outcome is a
/// function of the three byte strings alone.
#[verifier::external_body]
fn ed25519_verify(public_key: &[u8; 32], message: &Vec<u8>, signature: &[u8]) -> (r: bool)
    ensures
        r == signature_valid(public_key@, message@, signature@),
        signature@.len() != 64 ==> !r,
{
    let key = match ed25519_dalek::PublicKey::from_bytes(public_key) {
        Ok(key) => key,
        Err(_) => return false,
    };
    let sig = match ed25519_dalek::Signature::from_bytes(signature) {
        Ok(sig) => sig,
        Err(_) => return false,
    };
    key.verify_strict(message, &sig).is_ok()
}

fn push_bytes(out: &mut Vec<u8>, bytes: &[u8; 32])
    ensures
        final(out)@ == old(out)@ + bytes@,
{
    let ghost start = out@;
    let mut i: usize = 0;
    while i < 32
        invariant
            0 <= i <= 32,
            out@ == start + bytes@.subrange(0, i as int),
        decreases 32 - i,
    {
        out.push(bytes[i]);
        assert(bytes@.subrange(0, i + 1) =~= bytes@.subrange(0, i as int).push(bytes[i as int]));
        i = i + 1;
    }
    assert(bytes@.subrange(0, 32) =~= bytes@);
}

/// The eight little-endian bytes of the two's-complement pattern of `t`.
pub fn timestamp_bytes(t: i64) -> (r: Vec<u8>)
    ensures
        r@ == le_bytes(twos_complement(t)),
{
    let x: u64 = if t >= 0 {
        t as u64
    } else {
        ((t + i64::MAX) + 1) as u64 + 0x8000_0000_0000_0000u64
    };
    let mut r: Vec<u8> = Vec::new();
    r.push((x & 0xff) as u8);
    r.push(((x >> 8u64) & 0xff) as u8);
    r.push(((x >> 16u64) & 0xff) as u8);
    r.push(((x >> 24u64) & 0xff) as u8);
    r.push(((x >> 32u64) & 0xff) as u8);
    r.push(((x >> 40u64) & 0xff) as u8);
    r.push(((x >> 48u64) & 0xff) as u8);
    r.push(((x >> 56u64) & 0xff) as u8);
    assert(r@ =~= le_bytes(twos_complement(t)));
    r
}

/// The 73-byte canonical message for a verification payload.
pub fn canonical_message(
    escrow_id: &[u8; 32],
    result: bool,
    evidence_hash: &[u8; 32],
    timestamp: i64,
) -> (r: Vec<u8>)
    ensures
        r@ == verification_message(escrow_id@, result, evidence_hash@, timestamp),
        r@.len() == 73,
{
    let mut r: Vec<u8> = Vec::with_capacity(73);
    push_bytes(&mut r, escrow_id);
    r.push(if result { 1u8 } else { 0u8 });
    push_bytes(&mut r, evidence_hash);
    let ts = timestamp_bytes(timestamp);
    let mut i: usize = 0;
    let ghost head = r@;
    while i < 8
        invariant
            0 <= i <= 8,
            ts@.len() == 8,
            r@ == head + ts@.subrange(0, i as int),
        decreases 8 - i,
    {
        r.push(ts[i]);
        assert(ts@.subrange(0, i + 1) =~= ts@.subrange(0, i as int).push(ts@[i as int]));
        i = i + 1;
    }
    assert(ts@.subrange(0, 8) =~= ts@);
    assert(r@ =~= verification_message(escrow_id@, result, evidence_hash@, timestamp));
    r
}

/// Whether `signature` is a valid signature by `public_key` over the canonical
/// message of the payload.
pub fn signature_is_valid(
    public_key: &Identity,
    escrow_id: &[u8; 32],
    result: bool,
    evidence_hash: &[u8; 32],
    timestamp: i64,
    signature: &[u8],
) -> (r: bool)
    ensures
        r == signature_valid(
            public_key.bytes@,
            verification_message(escrow_id@, result, evidence_hash@, timestamp),
            signature@,
        ),
        signature@.len() != 64 ==> !r,
{
    let message = canonical_message(escrow_id, result, evidence_hash, timestamp);
    ed25519_verify(&public_key.bytes, &message, signature)
}

/// Whether `timestamp` lies within five minutes of `now`, either side.
pub fn is_fresh_timestamp(timestamp: i64, now: i64) -> (r: bool)
    ensures
        r == is_fresh(timestamp, now),
{
    let diff: i128 = now as i128 - timestamp as i128;
    -300 <= diff && diff <= 300
}

/// Both payload checks on a signature outcome that was already computed:
/// `InvalidSignature` where it failed, else `TimestampTooOld` where the
/// timestamp is stale.
pub fn check_payload(signature_ok: bool, timestamp: i64, now: i64) -> (r: Result<(), EscrowError>)
    ensures
        r is Ok <==> payload_error(signature_ok, timestamp, now) is None,
        r is Err ==> Some(r->Err_0) == payload_error(signature_ok, timestamp, now),
{
    if !signature_ok {
        Err(EscrowError::InvalidSignature)
    } else if !is_fresh_timestamp(timestamp, now) {
        Err(EscrowError::TimestampTooOld)
    } else {
        Ok(())
    }
}

} // verus!
