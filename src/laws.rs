//! Properties that relate several operations, or hold of every input, stated
//! over the same spec functions that the operations' contracts use.
use vstd::prelude::*;
use crate::config::{add_admin_error, ProtocolConfig, MAX_ADMINS};
use crate::dispute::{
    disputed, raise_dispute_error, resolve_dispute_error, resolved, DISPUTE_WINDOW,
};
use crate::error::EscrowError;
use crate::escrow::{
    refund_allowed, release_error, verification_error, verified, DisputeOutcome, EscrowAccount,
    EscrowStatus,
};
use crate::identity::Identity;
use crate::signature::{le_bytes, twos_complement, verification_message};

verus! {

/// Two numbers with the same eight little-endian bytes are equal.
pub proof fn lemma_le_bytes_injective(x: u64, y: u64)
    requires
        le_bytes(x) == le_bytes(y),
    ensures
        x == y,
{
    let bx = le_bytes(x);
    let by = le_bytes(y);
    assert(bx[0] == by[0] && bx[1] == by[1] && bx[2] == by[2] && bx[3] == by[3]);
    assert(bx[4] == by[4] && bx[5] == by[5] && bx[6] == by[6] && bx[7] == by[7]);
    assert(x & 0xff < 256 && y & 0xff < 256) by (bit_vector);
    assert((x >> 8u64) & 0xff < 256 && (y >> 8u64) & 0xff < 256) by (bit_vector);
    assert((x >> 16u64) & 0xff < 256 && (y >> 16u64) & 0xff < 256) by (bit_vector);
    assert((x >> 24u64) & 0xff < 256 && (y >> 24u64) & 0xff < 256) by (bit_vector);
    assert((x >> 32u64) & 0xff < 256 && (y >> 32u64) & 0xff < 256) by (bit_vector);
    assert((x >> 40u64) & 0xff < 256 && (y >> 40u64) & 0xff < 256) by (bit_vector);
    assert((x >> 48u64) & 0xff < 256 && (y >> 48u64) & 0xff < 256) by (bit_vector);
    assert((x >> 56u64) & 0xff < 256 && (y >> 56u64) & 0xff < 256) by (bit_vector);
    assert(x == y) by (bit_vector)
        requires
            x & 0xff == y & 0xff,
            (x >> 8u64) & 0xff == (y >> 8u64) & 0xff,
            (x >> 16u64) & 0xff == (y >> 16u64) & 0xff,
            (x >> 24u64) & 0xff == (y >> 24u64) & 0xff,
            (x >> 32u64) & 0xff == (y >> 32u64) & 0xff,
            (x >> 40u64) & 0xff == (y >> 40u64) & 0xff,
            (x >> 48u64) & 0xff == (y >> 48u64) & 0xff,
            (x >> 56u64) & 0xff == (y >> 56u64) & 0xff,
    ;
}

/// The canonical message determines the payload: two payloads that differ in
/// any bit of the escrow id, the result, the evidence hash or the timestamp
/// have different messages, so a signature over one is a signature over a
/// different byte string than the other.
pub proof fn lemma_message_injective(
    escrow_id: [u8; 32],
    result: bool,
    evidence_hash: [u8; 32],
    timestamp: i64,
    other_id: [u8; 32],
    other_result: bool,
    other_hash: [u8; 32],
    other_timestamp: i64,
)
    ensures
        verification_message(escrow_id@, result, evidence_hash@, timestamp)
            == verification_message(other_id@, other_result, other_hash@, other_timestamp)
            ==> escrow_id == other_id && result == other_result && evidence_hash == other_hash
            && timestamp == other_timestamp,
{
    let m = verification_message(escrow_id@, result, evidence_hash@, timestamp);
    let n = verification_message(other_id@, other_result, other_hash@, other_timestamp);
    if m == n {
        assert forall|k: int| 0 <= k < 32 implies escrow_id[k] == other_id[k] by {
            assert(m[k] == n[k]);
        }
        assert(escrow_id =~= other_id);
        assert(m[32] == n[32]);
        assert forall|k: int| 0 <= k < 32 implies evidence_hash[k] == other_hash[k] by {
            assert(m[33 + k] == n[33 + k]);
        }
        assert(evidence_hash =~= other_hash);
        assert(m.subrange(65, 73) =~= le_bytes(twos_complement(timestamp)));
        assert(n.subrange(65, 73) =~= le_bytes(twos_complement(other_timestamp)));
        lemma_le_bytes_injective(twos_complement(timestamp), twos_complement(other_timestamp));
    }
}

/// A payload signed 301 seconds before or after now is refused as stale,
/// however valid its signature, once the record would otherwise accept it.
pub proof fn lemma_stale_timestamp_refused(
    e: EscrowAccount,
    ai_agent: Identity,
    timestamp: i64,
    request_id: Option<[u8; 32]>,
    now: i64,
)
    requires
        e.status == EscrowStatus::Funded || e.status == EscrowStatus::PendingVerification,
        !e.dispute_raised,
        ai_agent == e.ai_agent_pubkey,
        now - timestamp == 301 || timestamp - now == 301,
    ensures
        verification_error(e, ai_agent, true, timestamp, request_id, now) == Some(
            EscrowError::TimestampTooOld,
        ),
{
}

/// Release is refused with `InvalidEscrowState` before any verification was
/// recorded, and with `VerificationFailed` once a negative result was.
pub proof fn lemma_release_needs_positive_result(e: EscrowAccount, evidence_hash: [u8; 32])
    requires
        e.status == EscrowStatus::Created || e.status == EscrowStatus::Funded || e.status
            == EscrowStatus::PendingVerification,
    ensures
        release_error(e) == Some(EscrowError::InvalidEscrowState),
        release_error(verified(e, false, evidence_hash)) == Some(EscrowError::VerificationFailed),
{
}

/// A funded escrow may be refunded exactly once its expiry has passed: at
/// `expiry + 1` it may, one second before expiry it may not.
pub proof fn lemma_refund_after_expiry(e: EscrowAccount, now: i64)
    requires
        e.status == EscrowStatus::Funded,
    ensures
        refund_allowed(e, now) <==> now > e.expiry,
{
}

/// The dispute round trip. While the dispute is open and its deadline has not
/// passed, neither release nor refund goes through, nor a verification. An
/// admin's ruling for the buyer then permits the refund at any time, and a
/// ruling for the seller permits the release.
pub proof fn lemma_dispute_round_trip(
    e: EscrowAccount,
    initiator: Identity,
    now: i64,
    config: ProtocolConfig,
    admin: Identity,
    later: i64,
)
    requires
        e.wf(),
        raise_dispute_error(e, initiator, now) is None,
        resolve_dispute_error(disputed(e, now), config, admin) is None,
    ensures
        release_error(disputed(e, now)) is Some,
        later <= now + DISPUTE_WINDOW ==> !refund_allowed(disputed(e, now), later),
        forall|agent: Identity, ok: bool, ts: i64, id: Option<[u8; 32]>|
            #[trigger] verification_error(disputed(e, now), agent, ok, ts, id, later) is Some,
        refund_allowed(resolved(disputed(e, now), DisputeOutcome::FavorBuyer), later),
        release_error(resolved(disputed(e, now), DisputeOutcome::FavorSeller)) is None,
{
}

/// Released and refunded records are final: no release, refund,
/// verification, dispute or ruling applies to them any more.
pub proof fn lemma_terminal_states_are_final(
    e: EscrowAccount,
    now: i64,
    caller: Identity,
    signature_ok: bool,
    timestamp: i64,
    request_id: Option<[u8; 32]>,
    config: ProtocolConfig,
)
    requires
        e.status == EscrowStatus::Released || e.status == EscrowStatus::Refunded,
    ensures
        release_error(e) is Some,
        !refund_allowed(e, now),
        verification_error(e, caller, signature_ok, timestamp, request_id, now) is Some,
        raise_dispute_error(e, caller, now) is Some,
        resolve_dispute_error(e, config, caller) is Some,
{
}

/// A configuration that holds five admins takes no sixth, and one that holds
/// an identity does not take it again.
pub proof fn lemma_admin_bounds(config: ProtocolConfig, new_admin: Identity)
    requires
        config.wf(),
    ensures
        config.admins().len() == MAX_ADMINS ==> add_admin_error(config, config.authority, new_admin)
            == Some(EscrowError::TooManyAdmins),
        config.admins().len() < MAX_ADMINS && config.admins().contains(new_admin)
            ==> add_admin_error(config, config.authority, new_admin) == Some(
            EscrowError::AdminAlreadyExists,
        ),
{
}

} // verus!
