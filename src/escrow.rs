use vstd::prelude::*;
use crate::error::EscrowError;
use crate::fee::{compute_fee, fee_of, seller_amount};
use crate::identity::{bytes32_eq, Identity};
use crate::signature::{
    check_payload, payload_error, signature_is_valid, signature_valid, verification_message,
};

verus! {

/// Where an escrow record stands in its lifecycle.
#[derive(Clone, Copy, Debug, PartialEq, Eq, Structural)]
pub enum EscrowStatus {
    Created,
    Funded,
    PendingVerification,
    Verified,
    Disputed,
    Released,
    Refunded,
}

/// The outcome that an admin imposes on a disputed escrow.
#[derive(Clone, Copy, Debug, PartialEq, Eq, Structural)]
pub enum DisputeOutcome {
    FavorBuyer,
    FavorSeller,
}

/// An account that a transfer moves tokens out of or into.
#[derive(Clone, Copy, Debug, PartialEq, Eq, Structural)]
pub enum Holder {
    /// The buyer's token account.
    Buyer,
    /// The holding account that the escrow owns.
    Vault,
    /// The seller's token account.
    Seller,
    /// The protocol treasury.
    Treasury,
}

/// Who authorises a transfer before the ledger.
#[derive(Clone, Copy, Debug, PartialEq, Eq, Structural)]
pub enum TransferAuthority {
    /// The buyer signs the transfer.
    Buyer,
    /// The escrow's own delegated authority signs it.
    Escrow,
}

/// A token transfer that an operation asks the ledger to carry out.
#[derive(Clone, Copy, Debug)]
pub struct TokenTransfer {
    pub mint: Identity,
    pub from: Holder,
    pub to: Holder,
    pub amount: u64,
    pub authority: TransferAuthority,
}

/// One escrow: who pays whom, how much, and how far the lifecycle has gone.
#[derive(Clone, Copy, Debug)]
pub struct EscrowAccount {
    pub escrow_id: [u8; 32],
    pub buyer: Identity,
    pub seller: Identity,
    pub token_mint: Identity,
    pub amount: u64,
    pub fee_amount: u64,
    pub status: EscrowStatus,
    pub expiry: i64,
    pub metadata_hash: [u8; 32],
    pub verification_result: Option<bool>,
    pub evidence_hash: Option<[u8; 32]>,
    pub dispute_raised: bool,
    pub dispute_deadline: Option<i64>,
    pub ai_agent_pubkey: Identity,
    pub chainlink_request_id: Option<[u8; 32]>,
    pub bump: u8,
}

/// Notification that an oracle request was recorded for an escrow.
#[derive(Clone, Copy, Debug)]
pub struct ChainlinkVerificationRequested {
    pub escrow_id: [u8; 32],
    pub evidence_hash: [u8; 32],
    pub request_id: [u8; 32],
}

/// Notification that a verification result was recorded for an escrow.
#[derive(Clone, Copy, Debug)]
pub struct ChainlinkVerificationCompleted {
    pub escrow_id: [u8; 32],
    pub result: bool,
    pub request_id: Option<[u8; 32]>,
}

impl EscrowAccount {
    /// The record's invariant: the fee never exceeds the amount; a disputed
    /// record has its dispute flag and deadline; only a disputed record, or one
    /// refunded out of a dispute, has the flag; a verified record holds its
    /// result; a record awaiting the oracle holds the request id.
    pub open spec fn wf(&self) -> bool {
        &&& self.fee_amount <= self.amount
        &&& self.status == EscrowStatus::Disputed ==> self.dispute_raised
            && self.dispute_deadline is Some
        &&& self.dispute_raised ==> self.status == EscrowStatus::Disputed || self.status
            == EscrowStatus::Refunded
        &&& self.status == EscrowStatus::Verified ==> self.verification_result is Some
        &&& self.status == EscrowStatus::PendingVerification ==> self.chainlink_request_id is Some
    }
}

/// A record fresh from creation.
pub open spec fn created_escrow(
    escrow_id: [u8; 32],
    buyer: Identity,
    seller: Identity,
    token_mint: Identity,
    amount: u64,
    fee_amount: u64,
    expiry: i64,
    metadata_hash: [u8; 32],
    ai_agent_pubkey: Identity,
    bump: u8,
) -> EscrowAccount {
    EscrowAccount {
        escrow_id,
        buyer,
        seller,
        token_mint,
        amount,
        fee_amount,
        status: EscrowStatus::Created,
        expiry,
        metadata_hash,
        verification_result: None,
        evidence_hash: None,
        dispute_raised: false,
        dispute_deadline: None,
        ai_agent_pubkey,
        chainlink_request_id: None,
        bump,
    }
}

/// `e` with its status replaced.
pub open spec fn with_status(e: EscrowAccount, status: EscrowStatus) -> EscrowAccount {
    EscrowAccount { status, ..e }
}

/// The transfer that funds `e`: its amount, from the buyer into the vault,
/// signed by the buyer.
pub open spec fn deposit_transfer(e: EscrowAccount) -> TokenTransfer {
    TokenTransfer {
        mint: e.token_mint,
        from: Holder::Buyer,
        to: Holder::Vault,
        amount: e.amount,
        authority: TransferAuthority::Buyer,
    }
}

/// `e` once an oracle request was recorded on it.
pub open spec fn pending(e: EscrowAccount, evidence_hash: [u8; 32], request_id: [u8; 32]) -> EscrowAccount {
    EscrowAccount {
        evidence_hash: Some(evidence_hash),
        chainlink_request_id: Some(request_id),
        status: EscrowStatus::PendingVerification,
        ..e
    }
}

/// Whether a submitted request id answers the one recorded, if any.
pub open spec fn request_matches(recorded: Option<[u8; 32]>, submitted: Option<[u8; 32]>) -> bool {
    match recorded {
        None => true,
        Some(id) => submitted == Some(id),
    }
}

/// The first refusal that a verification submission meets, given the outcome
/// of the signature check.
pub open spec fn verification_error(
    e: EscrowAccount,
    ai_agent: Identity,
    signature_ok: bool,
    timestamp: i64,
    request_id: Option<[u8; 32]>,
    now: i64,
) -> Option<EscrowError> {
    if !(e.status == EscrowStatus::Funded || e.status == EscrowStatus::PendingVerification) {
        Some(EscrowError::InvalidEscrowState)
    } else if e.dispute_raised {
        Some(EscrowError::DisputeActive)
    } else if ai_agent != e.ai_agent_pubkey {
        Some(EscrowError::UnauthorizedAIAgent)
    } else if payload_error(signature_ok, timestamp, now) is Some {
        payload_error(signature_ok, timestamp, now)
    } else if !request_matches(e.chainlink_request_id, request_id) {
        Some(EscrowError::InvalidChainlinkRequest)
    } else {
        None
    }
}

/// Whether the registered verifier of `e` signed this payload.
pub open spec fn payload_signed(
    e: EscrowAccount,
    result: bool,
    evidence_hash: [u8; 32],
    timestamp: i64,
    signature: Seq<u8>,
) -> bool {
    signature_valid(
        e.ai_agent_pubkey.bytes@,
        verification_message(e.escrow_id@, result, evidence_hash@, timestamp),
        signature,
    )
}

/// `e` once a verification result was recorded on it.
pub open spec fn verified(e: EscrowAccount, result: bool, evidence_hash: [u8; 32]) -> EscrowAccount {
    EscrowAccount {
        verification_result: Some(result),
        evidence_hash: Some(evidence_hash),
        status: EscrowStatus::Verified,
        ..e
    }
}

/// The first refusal that a release meets.
pub open spec fn release_error(e: EscrowAccount) -> Option<EscrowError> {
    if e.status != EscrowStatus::Verified {
        Some(EscrowError::InvalidEscrowState)
    } else if e.verification_result != Some(true) {
        Some(EscrowError::VerificationFailed)
    } else if e.dispute_raised {
        Some(EscrowError::DisputeActive)
    } else if e.fee_amount > e.amount {
        Some(EscrowError::MathOverflow)
    } else {
        None
    }
}

/// The two transfers of a release, both signed by the escrow: the amount less
/// the fee to the seller, then the fee to the treasury.
pub open spec fn release_transfers(e: EscrowAccount) -> (TokenTransfer, TokenTransfer) {
    (
        TokenTransfer {
            mint: e.token_mint,
            from: Holder::Vault,
            to: Holder::Seller,
            amount: (e.amount - e.fee_amount) as u64,
            authority: TransferAuthority::Escrow,
        },
        TokenTransfer {
            mint: e.token_mint,
            from: Holder::Vault,
            to: Holder::Treasury,
            amount: e.fee_amount,
            authority: TransferAuthority::Escrow,
        },
    )
}

/// Whether the buyer may take the funds back at time `now`: the escrow is
/// funded and expired, or verified with a negative result, or disputed past
/// the dispute deadline. Released and refunded records are final.
pub open spec fn refund_allowed(e: EscrowAccount, now: i64) -> bool {
    ||| e.status == EscrowStatus::Funded && now > e.expiry
    ||| e.status == EscrowStatus::Verified && e.verification_result == Some(false)
    ||| e.status == EscrowStatus::Disputed && e.dispute_raised && e.dispute_deadline is Some
        && now > e.dispute_deadline->Some_0
}

/// The transfer of a refund: the whole amount back to the buyer, signed by
/// the escrow.
pub open spec fn refund_transfer(e: EscrowAccount) -> TokenTransfer {
    TokenTransfer {
        mint: e.token_mint,
        from: Holder::Vault,
        to: Holder::Buyer,
        amount: e.amount,
        authority: TransferAuthority::Escrow,
    }
}

/// A new record in `Created`, with the fee at `fee_rate` percent of `amount`.
/// Fails with `MathOverflow` exactly when `amount * fee_rate` leaves the
/// range of `u64`.
pub fn initialize_escrow(
    escrow_id: [u8; 32],
    buyer: Identity,
    seller: Identity,
    token_mint: Identity,
    amount: u64,
    expiry: i64,
    metadata_hash: [u8; 32],
    ai_agent_pubkey: Identity,
    fee_rate: u64,
    bump: u8,
) -> (r: Result<EscrowAccount, EscrowError>)
    requires
        fee_rate <= 100,
    ensures
        r is Ok <==> amount * fee_rate <= u64::MAX,
        r is Err ==> r->Err_0 == EscrowError::MathOverflow,
        r is Ok ==> r->Ok_0 == created_escrow(
            escrow_id,
            buyer,
            seller,
            token_mint,
            amount,
            fee_of(amount as nat, fee_rate as nat) as u64,
            expiry,
            metadata_hash,
            ai_agent_pubkey,
            bump,
        ),
        r is Ok ==> r->Ok_0.wf(),
{
    let fee_amount = match compute_fee(amount, fee_rate) {
        Ok(fee) => fee,
        Err(e) => return Err(e),
    };
    Ok(EscrowAccount {
        escrow_id,
        buyer,
        seller,
        token_mint,
        amount,
        fee_amount,
        status: EscrowStatus::Created,
        expiry,
        metadata_hash,
        verification_result: None,
        evidence_hash: None,
        dispute_raised: false,
        dispute_deadline: None,
        ai_agent_pubkey,
        chainlink_request_id: None,
        bump,
    })
}

/// Funds a created escrow: the record moves to `Funded`, and the buyer's
/// transfer of the amount into the vault is returned.
pub fn deposit_funds(escrow: &mut EscrowAccount) -> (r: Result<TokenTransfer, EscrowError>)
    ensures
        r is Ok <==> old(escrow).status == EscrowStatus::Created,
        r is Err ==> r->Err_0 == EscrowError::InvalidEscrowState && *final(escrow) == *old(escrow),
        r is Ok ==> *final(escrow) == with_status(*old(escrow), EscrowStatus::Funded)
            && r->Ok_0 == deposit_transfer(*old(escrow)),
        old(escrow).wf() ==> final(escrow).wf(),
{
    if escrow.status != EscrowStatus::Created {
        return Err(EscrowError::InvalidEscrowState);
    }
    escrow.status = EscrowStatus::Funded;
    Ok(TokenTransfer {
        mint: escrow.token_mint,
        from: Holder::Buyer,
        to: Holder::Vault,
        amount: escrow.amount,
        authority: TransferAuthority::Buyer,
    })
}

/// Records an outstanding oracle request on a funded escrow, which then
/// awaits the oracle's answer.
pub fn request_chainlink_verification(
    escrow: &mut EscrowAccount,
    evidence_hash: [u8; 32],
    chainlink_request_id: [u8; 32],
) -> (r: Result<ChainlinkVerificationRequested, EscrowError>)
    ensures
        r is Ok <==> old(escrow).status == EscrowStatus::Funded,
        r is Err ==> r->Err_0 == EscrowError::InvalidEscrowState && *final(escrow) == *old(escrow),
        r is Ok ==> *final(escrow) == pending(*old(escrow), evidence_hash, chainlink_request_id)
            && r->Ok_0 == (ChainlinkVerificationRequested {
                escrow_id: old(escrow).escrow_id,
                evidence_hash,
                request_id: chainlink_request_id,
            }),
        old(escrow).wf() ==> final(escrow).wf(),
{
    if escrow.status != EscrowStatus::Funded {
        return Err(EscrowError::InvalidEscrowState);
    }
    escrow.evidence_hash = Some(evidence_hash);
    escrow.chainlink_request_id = Some(chainlink_request_id);
    escrow.status = EscrowStatus::PendingVerification;
    Ok(ChainlinkVerificationRequested {
        escrow_id: escrow.escrow_id,
        evidence_hash,
        request_id: chainlink_request_id,
    })
}

fn request_id_matches(recorded: Option<[u8; 32]>, submitted: Option<[u8; 32]>) -> (r: bool)
    ensures
        r == request_matches(recorded, submitted),
{
    match recorded {
        None => true,
        Some(id) => match submitted {
            None => false,
            Some(s) => bytes32_eq(&s, &id),
        },
    }
}

/// Records a verification result whose signature check came out as
/// `signature_ok`. In order, the record must be funded or awaiting the
/// oracle, free of dispute, and registered to `ai_agent`; the signature must
/// have passed and the timestamp be fresh; a recorded oracle request id must
/// be answered by the same id. The record then moves to `Verified`.
pub fn record_verification(
    escrow: &mut EscrowAccount,
    ai_agent: Identity,
    result: bool,
    evidence_hash: [u8; 32],
    timestamp: i64,
    signature_ok: bool,
    chainlink_request_id: Option<[u8; 32]>,
    now: i64,
) -> (r: Result<ChainlinkVerificationCompleted, EscrowError>)
    ensures
        r is Ok <==> verification_error(
            *old(escrow),
            ai_agent,
            signature_ok,
            timestamp,
            chainlink_request_id,
            now,
        ) is None,
        r is Err ==> Some(r->Err_0) == verification_error(
            *old(escrow),
            ai_agent,
            signature_ok,
            timestamp,
            chainlink_request_id,
            now,
        ) && *final(escrow) == *old(escrow),
        r is Ok ==> *final(escrow) == verified(*old(escrow), result, evidence_hash)
            && r->Ok_0 == (ChainlinkVerificationCompleted {
                escrow_id: old(escrow).escrow_id,
                result,
                request_id: chainlink_request_id,
            }),
        old(escrow).wf() ==> final(escrow).wf(),
{
    if !(escrow.status == EscrowStatus::Funded || escrow.status
        == EscrowStatus::PendingVerification) {
        return Err(EscrowError::InvalidEscrowState);
    }
    if escrow.dispute_raised {
        return Err(EscrowError::DisputeActive);
    }
    if !(ai_agent == escrow.ai_agent_pubkey) {
        return Err(EscrowError::UnauthorizedAIAgent);
    }
    match check_payload(signature_ok, timestamp, now) {
        Ok(()) => {},
        Err(e) => return Err(e),
    }
    if !request_id_matches(escrow.chainlink_request_id, chainlink_request_id) {
        return Err(EscrowError::InvalidChainlinkRequest);
    }
    escrow.verification_result = Some(result);
    escrow.evidence_hash = Some(evidence_hash);
    escrow.status = EscrowStatus::Verified;
    Ok(ChainlinkVerificationCompleted {
        escrow_id: escrow.escrow_id,
        result,
        request_id: chainlink_request_id,
    })
}

/// Submits a signed verification result. The signature is checked over the
/// canonical message of the payload, under the verifier key registered on the
/// record; the rest is as in `record_verification`.
pub fn submit_verification(
    escrow: &mut EscrowAccount,
    ai_agent: Identity,
    result: bool,
    evidence_hash: [u8; 32],
    timestamp: i64,
    signature: &[u8],
    chainlink_request_id: Option<[u8; 32]>,
    now: i64,
) -> (r: Result<ChainlinkVerificationCompleted, EscrowError>)
    ensures
        ({
            let ok = payload_signed(*old(escrow), result, evidence_hash, timestamp, signature@);
            let err = verification_error(
                *old(escrow),
                ai_agent,
                ok,
                timestamp,
                chainlink_request_id,
                now,
            );
            &&& r is Ok <==> err is None
            &&& r is Err ==> Some(r->Err_0) == err && *final(escrow) == *old(escrow)
            &&& r is Ok ==> *final(escrow) == verified(*old(escrow), result, evidence_hash)
                && r->Ok_0 == (ChainlinkVerificationCompleted {
                    escrow_id: old(escrow).escrow_id,
                    result,
                    request_id: chainlink_request_id,
                })
        }),
        old(escrow).wf() ==> final(escrow).wf(),
{
    let signature_ok = signature_is_valid(
        &escrow.ai_agent_pubkey,
        &escrow.escrow_id,
        result,
        &evidence_hash,
        timestamp,
        signature,
    );
    record_verification(
        escrow,
        ai_agent,
        result,
        evidence_hash,
        timestamp,
        signature_ok,
        chainlink_request_id,
        now,
    )
}

/// Releases a verified escrow to the seller: the record moves to `Released`,
/// and the seller's and the treasury's transfers are returned, in this order.
pub fn release_funds(escrow: &mut EscrowAccount) -> (r: Result<
    (TokenTransfer, TokenTransfer),
    EscrowError,
>)
    ensures
        r is Ok <==> release_error(*old(escrow)) is None,
        r is Err ==> Some(r->Err_0) == release_error(*old(escrow)) && *final(escrow)
            == *old(escrow),
        r is Ok ==> *final(escrow) == with_status(*old(escrow), EscrowStatus::Released)
            && r->Ok_0 == release_transfers(*old(escrow)),
        old(escrow).wf() ==> final(escrow).wf(),
{
    if escrow.status != EscrowStatus::Verified {
        return Err(EscrowError::InvalidEscrowState);
    }
    match escrow.verification_result {
        Some(true) => {},
        _ => return Err(EscrowError::VerificationFailed),
    }
    if escrow.dispute_raised {
        return Err(EscrowError::DisputeActive);
    }
    let to_seller = match seller_amount(escrow.amount, escrow.fee_amount) {
        Ok(v) => v,
        Err(e) => return Err(e),
    };
    escrow.status = EscrowStatus::Released;
    Ok(
        (
            TokenTransfer {
                mint: escrow.token_mint,
                from: Holder::Vault,
                to: Holder::Seller,
                amount: to_seller,
                authority: TransferAuthority::Escrow,
            },
            TokenTransfer {
                mint: escrow.token_mint,
                from: Holder::Vault,
                to: Holder::Treasury,
                amount: escrow.fee_amount,
                authority: TransferAuthority::Escrow,
            },
        ),
    )
}

/// Whether `refund_buyer` would succeed at time `now`.
pub fn can_refund(escrow: &EscrowAccount, now: i64) -> (r: bool)
    ensures
        r == refund_allowed(*escrow, now),
{
    let expired = escrow.status == EscrowStatus::Funded && now > escrow.expiry;
    let rejected = escrow.status == EscrowStatus::Verified && match escrow.verification_result {
        Some(v) => !v,
        None => false,
    };
    let dispute_lapsed = escrow.status == EscrowStatus::Disputed && escrow.dispute_raised
        && match escrow.dispute_deadline {
        Some(deadline) => now > deadline,
        None => false,
    };
    expired || rejected || dispute_lapsed
}

/// Returns the funds to the buyer where `refund_allowed` holds at `now`: the
/// record moves to `Refunded`, and the transfer of the whole amount is
/// returned. Fails with `RefundNotAllowed` otherwise.
pub fn refund_buyer(escrow: &mut EscrowAccount, now: i64) -> (r: Result<TokenTransfer, EscrowError>)
    ensures
        r is Ok <==> refund_allowed(*old(escrow), now),
        r is Err ==> r->Err_0 == EscrowError::RefundNotAllowed && *final(escrow) == *old(escrow),
        r is Ok ==> *final(escrow) == with_status(*old(escrow), EscrowStatus::Refunded)
            && r->Ok_0 == refund_transfer(*old(escrow)),
        old(escrow).wf() ==> final(escrow).wf(),
{
    if !can_refund(escrow, now) {
        return Err(EscrowError::RefundNotAllowed);
    }
    escrow.status = EscrowStatus::Refunded;
    Ok(
        TokenTransfer {
            mint: escrow.token_mint,
            from: Holder::Vault,
            to: Holder::Buyer,
            amount: escrow.amount,
            authority: TransferAuthority::Escrow,
        },
    )
}

} // verus!
