use vstd::prelude::*;
use crate::config::ProtocolConfig;
use crate::error::EscrowError;
use crate::escrow::{DisputeOutcome, EscrowAccount, EscrowStatus};
use crate::identity::Identity;

verus! {

/// How long, in seconds, a dispute stays open before a lapsed dispute lets
/// the buyer take the funds back: 48 hours.
pub const DISPUTE_WINDOW: i64 = 172800;

/// The first refusal that raising a dispute meets. Only the buyer or the
/// seller may raise one, on a funded or verified record without a dispute;
/// the deadline must fit in an `i64`.
pub open spec fn raise_dispute_error(e: EscrowAccount, initiator: Identity, now: i64) -> Option<
    EscrowError,
> {
    if initiator != e.buyer && initiator != e.seller {
        Some(EscrowError::InvalidEscrowState)
    } else if !(e.status == EscrowStatus::Funded || e.status == EscrowStatus::Verified) {
        Some(EscrowError::InvalidEscrowState)
    } else if e.dispute_raised {
        Some(EscrowError::DisputeAlreadyRaised)
    } else if now + DISPUTE_WINDOW > i64::MAX {
        Some(EscrowError::MathOverflow)
    } else {
        None
    }
}

/// `e` with a dispute raised at time `now`.
pub open spec fn disputed(e: EscrowAccount, now: i64) -> EscrowAccount {
    EscrowAccount {
        dispute_raised: true,
        dispute_deadline: Some((now + DISPUTE_WINDOW) as i64),
        status: EscrowStatus::Disputed,
        ..e
    }
}

/// The first refusal that resolving a dispute meets: the record must be
/// disputed and the caller one of the configuration's admins.
pub open spec fn resolve_dispute_error(e: EscrowAccount, config: ProtocolConfig, admin: Identity) -> Option<
    EscrowError,
> {
    if e.status != EscrowStatus::Disputed {
        Some(EscrowError::InvalidEscrowState)
    } else if !config.admins().contains(admin) {
        Some(EscrowError::UnauthorizedAdmin)
    } else {
        None
    }
}

/// The verification result that an outcome stands for.
pub open spec fn outcome_result(outcome: DisputeOutcome) -> bool {
    outcome == DisputeOutcome::FavorSeller
}

/// `e` once an admin resolved its dispute with `outcome`.
pub open spec fn resolved(e: EscrowAccount, outcome: DisputeOutcome) -> EscrowAccount {
    EscrowAccount {
        verification_result: Some(outcome_result(outcome)),
        dispute_raised: false,
        status: EscrowStatus::Verified,
        ..e
    }
}

/// Opens a dispute at time `now`, which pauses release and verification
/// until an admin resolves it or its 48-hour window lapses.
pub fn raise_dispute(escrow: &mut EscrowAccount, initiator: Identity, now: i64) -> (r: Result<
    (),
    EscrowError,
>)
    ensures
        r is Ok <==> raise_dispute_error(*old(escrow), initiator, now) is None,
        r is Err ==> Some(r->Err_0) == raise_dispute_error(*old(escrow), initiator, now)
            && *final(escrow) == *old(escrow),
        r is Ok ==> *final(escrow) == disputed(*old(escrow), now),
        old(escrow).wf() ==> final(escrow).wf(),
{
    if !(initiator == escrow.buyer) && !(initiator == escrow.seller) {
        return Err(EscrowError::InvalidEscrowState);
    }
    if !(escrow.status == EscrowStatus::Funded || escrow.status == EscrowStatus::Verified) {
        return Err(EscrowError::InvalidEscrowState);
    }
    if escrow.dispute_raised {
        return Err(EscrowError::DisputeAlreadyRaised);
    }
    let deadline = match now.checked_add(DISPUTE_WINDOW) {
        Some(d) => d,
        None => return Err(EscrowError::MathOverflow),
    };
    escrow.dispute_raised = true;
    escrow.dispute_deadline = Some(deadline);
    escrow.status = EscrowStatus::Disputed;
    Ok(())
}

/// An admin's ruling on a disputed escrow: `FavorSeller` records a positive
/// result and `FavorBuyer` a negative one, the dispute closes, and the record
/// returns to `Verified`, from where release or refund go by that result.
pub fn resolve_dispute(
    escrow: &mut EscrowAccount,
    config: &ProtocolConfig,
    admin: Identity,
    outcome: DisputeOutcome,
) -> (r: Result<(), EscrowError>)
    ensures
        r is Ok <==> resolve_dispute_error(*old(escrow), *config, admin) is None,
        r is Err ==> Some(r->Err_0) == resolve_dispute_error(*old(escrow), *config, admin)
            && *final(escrow) == *old(escrow),
        r is Ok ==> *final(escrow) == resolved(*old(escrow), outcome),
        old(escrow).wf() ==> final(escrow).wf(),
{
    if escrow.status != EscrowStatus::Disputed {
        return Err(EscrowError::InvalidEscrowState);
    }
    if !config.is_admin(&admin) {
        return Err(EscrowError::UnauthorizedAdmin);
    }
    escrow.verification_result = Some(
        match outcome {
            DisputeOutcome::FavorBuyer => false,
            DisputeOutcome::FavorSeller => true,
        },
    );
    escrow.dispute_raised = false;
    escrow.status = EscrowStatus::Verified;
    Ok(())
}

} // verus!
