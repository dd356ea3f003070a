use vstd::prelude::*;
use vstd::string::StringExecFns;
use crate::identity::Identity;
use crate::error::UniversalError;

verus! {

/// What a cross-chain message asks for.
#[derive(Clone, Copy, Debug, PartialEq, Eq, Structural)]
pub enum CrossChainAction {
    InitiateEscrow,
    ReleaseEscrow,
    RefundEscrow,
    VerificationComplete,
}

/// A message relayed between chains about one escrow.
#[derive(Debug)]
pub struct CrossChainMessage {
    pub source_chain: String,
    pub destination_chain: String,
    pub escrow_id: [u8; 32],
    pub action: CrossChainAction,
    pub amount: u64,
    pub recipient: Identity,
}

/// Where a cross-chain escrow stands.
#[derive(Clone, Copy, Debug, PartialEq, Eq, Structural)]
pub enum UniversalEscrowStatus {
    Initiated,
    CrossChainPending,
    Active,
    VerificationPending,
    Completed,
    Refunded,
    Failed,
}

/// The record of an escrow that spans two chains.
#[derive(Debug)]
pub struct UniversalEscrow {
    pub escrow_id: [u8; 32],
    pub source_chain: String,
    pub destination_chain: String,
    pub buyer: Identity,
    pub seller: Identity,
    pub amount: u64,
    pub status: UniversalEscrowStatus,
    pub cross_chain_tx_hash: Option<String>,
    pub verification_result: Option<bool>,
    pub chainlink_request_id: Option<[u8; 32]>,
    pub zkme_verification: bool,
    pub bump: u8,
}

/// Why an outbound call was reverted.
#[derive(Debug)]
pub struct RevertContext {
    pub reason: String,
    pub tx_hash: String,
}

/// Why an outbound call was aborted.
#[derive(Debug)]
pub struct AbortContext {
    pub reason: String,
    pub error_code: u32,
}

/// Notification that a cross-chain escrow was set up from an inbound message.
#[derive(Debug)]
pub struct CrossChainEscrowInitiated {
    pub escrow_id: [u8; 32],
    pub source_chain: String,
    pub amount: u64,
}

/// Outbound message that releases the funds on the destination chain.
#[derive(Debug)]
pub struct CrossChainRelease {
    pub message: CrossChainMessage,
}

/// Outbound message that refunds the buyer on the source chain.
#[derive(Debug)]
pub struct CrossChainRefund {
    pub message: CrossChainMessage,
    pub reason: String,
}

/// Notification that an outbound call was aborted.
#[derive(Debug)]
pub struct CrossChainAbort {
    pub escrow_id: [u8; 32],
    pub reason: String,
}

/// What an inbound call emits.
#[derive(Debug)]
pub enum CrossChainEvent {
    Initiated(CrossChainEscrowInitiated),
    Release(CrossChainRelease),
}

/// The name under which this chain appears in outbound messages.
pub open spec fn home_chain() -> Seq<char> {
    seq!['s', 'o', 'l', 'a', 'n', 'a']
}

/// Whether `m` is the outbound message that moves the funds of `e` to
/// `recipient` on `chain` for `action`, sent from this chain.
pub open spec fn outbound_message(
    m: CrossChainMessage,
    e: UniversalEscrow,
    chain: String,
    action: CrossChainAction,
    recipient: Identity,
) -> bool {
    &&& m.source_chain@ == home_chain()
    &&& m.destination_chain == chain
    &&& m.escrow_id == e.escrow_id
    &&& m.action == action
    &&& m.amount == e.amount
    &&& m.recipient == recipient
}

/// `e` overwritten from an `InitiateEscrow` message.
pub open spec fn initiated(e: UniversalEscrow, m: CrossChainMessage) -> UniversalEscrow {
    UniversalEscrow {
        escrow_id: m.escrow_id,
        source_chain: m.source_chain,
        destination_chain: m.destination_chain,
        buyer: m.recipient,
        amount: m.amount,
        status: UniversalEscrowStatus::Active,
        ..e
    }
}

/// `e` with its status replaced.
pub open spec fn with_universal_status(e: UniversalEscrow, status: UniversalEscrowStatus) -> UniversalEscrow {
    UniversalEscrow { status, ..e }
}

/// `e` once the verification reported from the other chain completed it.
pub open spec fn completed(e: UniversalEscrow) -> UniversalEscrow {
    UniversalEscrow {
        verification_result: Some(true),
        status: UniversalEscrowStatus::Completed,
        ..e
    }
}

fn home_chain_name() -> (r: String)
    ensures
        r@ == home_chain(),
{
    let r = String::from_str("solana");
    proof {
        reveal_strlit("solana");
        assert(r@ =~= home_chain());
    }
    r
}

/// A new cross-chain record in `Initiated`, with no identity proof yet.
pub fn initialize_universal_escrow(
    escrow_id: [u8; 32],
    source_chain: String,
    destination_chain: String,
    bump: u8,
) -> (r: UniversalEscrow)
    ensures
        r.escrow_id == escrow_id,
        r.source_chain == source_chain,
        r.destination_chain == destination_chain,
        r.buyer.bytes@ == Seq::new(32, |i: int| 0u8),
        r.seller.bytes@ == Seq::new(32, |i: int| 0u8),
        r.amount == 0,
        r.status == UniversalEscrowStatus::Initiated,
        r.cross_chain_tx_hash is None,
        r.verification_result is None,
        r.chainlink_request_id is None,
        !r.zkme_verification,
        r.bump == bump,
{
    UniversalEscrow {
        escrow_id,
        source_chain,
        destination_chain,
        buyer: Identity::zero(),
        seller: Identity::zero(),
        amount: 0,
        status: UniversalEscrowStatus::Initiated,
        cross_chain_tx_hash: None,
        verification_result: None,
        chainlink_request_id: None,
        zkme_verification: false,
        bump,
    }
}

/// Records the outcome of the external identity proof; a positive one makes
/// the record `Active`.
pub fn update_zkme_verification(escrow: &mut UniversalEscrow, verified: bool)
    ensures
        verified ==> *final(escrow) == (UniversalEscrow {
            zkme_verification: true,
            status: UniversalEscrowStatus::Active,
            ..*old(escrow)
        }),
        !verified ==> *final(escrow) == (UniversalEscrow {
            zkme_verification: false,
            ..*old(escrow)
        }),
{
    escrow.zkme_verification = verified;
    if verified {
        escrow.status = UniversalEscrowStatus::Active;
    }
}

/// Applies an inbound message. `InitiateEscrow` overwrites the record from the
/// message and makes it `Active`; `VerificationComplete` completes a record
/// that awaits verification and emits the release for the destination chain;
/// any other action is refused with `UnsupportedAction`.
pub fn on_call(escrow: &mut UniversalEscrow, message: CrossChainMessage) -> (r: Result<
    CrossChainEvent,
    UniversalError,
>)
    ensures
        message.action == CrossChainAction::InitiateEscrow ==> {
            &&& *final(escrow) == initiated(*old(escrow), message)
            &&& r matches Ok(CrossChainEvent::Initiated(ev)) && ev == (CrossChainEscrowInitiated {
                escrow_id: message.escrow_id,
                source_chain: message.source_chain,
                amount: message.amount,
            })
        },
        message.action == CrossChainAction::VerificationComplete && old(escrow).status
            == UniversalEscrowStatus::VerificationPending ==> {
            &&& *final(escrow) == completed(*old(escrow))
            &&& r matches Ok(CrossChainEvent::Release(ev)) && outbound_message(
                ev.message,
                *old(escrow),
                old(escrow).destination_chain,
                CrossChainAction::ReleaseEscrow,
                old(escrow).seller,
            )
        },
        message.action == CrossChainAction::VerificationComplete && old(escrow).status
            != UniversalEscrowStatus::VerificationPending ==> r == Err::<CrossChainEvent, UniversalError>(
            UniversalError::InvalidStatus,
        ) && *final(escrow) == *old(escrow),
        message.action == CrossChainAction::ReleaseEscrow || message.action
            == CrossChainAction::RefundEscrow ==> r == Err::<CrossChainEvent, UniversalError>(
            UniversalError::UnsupportedAction,
        ) && *final(escrow) == *old(escrow),
{
    match message.action {
        CrossChainAction::InitiateEscrow => {
            escrow.escrow_id = message.escrow_id;
            escrow.source_chain = message.source_chain.clone();
            escrow.destination_chain = message.destination_chain;
            escrow.buyer = message.recipient;
            escrow.amount = message.amount;
            escrow.status = UniversalEscrowStatus::Active;
            Ok(
                CrossChainEvent::Initiated(
                    CrossChainEscrowInitiated {
                        escrow_id: message.escrow_id,
                        source_chain: message.source_chain,
                        amount: message.amount,
                    },
                ),
            )
        },
        CrossChainAction::VerificationComplete => {
            if escrow.status != UniversalEscrowStatus::VerificationPending {
                return Err(UniversalError::InvalidStatus);
            }
            escrow.verification_result = Some(true);
            escrow.status = UniversalEscrowStatus::Completed;
            let release = CrossChainMessage {
                source_chain: home_chain_name(),
                destination_chain: escrow.destination_chain.clone(),
                escrow_id: escrow.escrow_id,
                action: CrossChainAction::ReleaseEscrow,
                amount: escrow.amount,
                recipient: escrow.seller,
            };
            Ok(CrossChainEvent::Release(CrossChainRelease { message: release }))
        },
        _ => Err(UniversalError::UnsupportedAction),
    }
}

/// Handles a reverted outbound call: the record fails for good, and the
/// refund to the buyer on the source chain is emitted with the reason.
pub fn on_revert(escrow: &mut UniversalEscrow, revert_context: RevertContext) -> (r: CrossChainRefund)
    ensures
        *final(escrow) == with_universal_status(*old(escrow), UniversalEscrowStatus::Failed),
        outbound_message(
            r.message,
            *old(escrow),
            old(escrow).source_chain,
            CrossChainAction::RefundEscrow,
            old(escrow).buyer,
        ),
        r.reason == revert_context.reason,
{
    escrow.status = UniversalEscrowStatus::Failed;
    let refund = CrossChainMessage {
        source_chain: home_chain_name(),
        destination_chain: escrow.source_chain.clone(),
        escrow_id: escrow.escrow_id,
        action: CrossChainAction::RefundEscrow,
        amount: escrow.amount,
        recipient: escrow.buyer,
    };
    CrossChainRefund { message: refund, reason: revert_context.reason }
}

/// Handles an aborted outbound call: the record fails for good, and the abort
/// is reported with its reason.
pub fn on_abort(escrow: &mut UniversalEscrow, abort_context: AbortContext) -> (r: CrossChainAbort)
    ensures
        *final(escrow) == with_universal_status(*old(escrow), UniversalEscrowStatus::Failed),
        r.escrow_id == old(escrow).escrow_id,
        r.reason == abort_context.reason,
{
    escrow.status = UniversalEscrowStatus::Failed;
    CrossChainAbort { escrow_id: escrow.escrow_id, reason: abort_context.reason }
}

} // verus!
