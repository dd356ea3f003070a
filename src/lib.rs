//! An oracle-arbitrated escrow: a buyer's funds are held until a registered
//! verifier attests, by a signed message, that the terms were met. The funds
//! then go to the seller less a protocol fee, or back to the buyer on failure,
//! expiry or dispute. A cross-chain variant drives a second record through
//! relayed messages.
//!
//! Every operation here is a pure transition on a record: it checks its
//! preconditions, and either leaves the record untouched and returns an
//! error, or updates it and returns the transfers and notifications that the
//! host must carry out.

mod identity;
mod error;
mod fee;
mod signature;
mod config;
mod escrow;
mod dispute;
mod universal;
mod laws;

pub use identity::Identity;
pub use error::{EscrowError, UniversalError};
pub use fee::{compute_fee, seller_amount, fee_of, PROTOCOL_FEE_PERCENT};
pub use signature::{
    canonical_message, check_payload, is_fresh, is_fresh_timestamp, le_bytes, payload_error,
    result_byte, signature_is_valid, signature_valid, timestamp_bytes, twos_complement,
    verification_message, FRESHNESS_WINDOW,
};
pub use config::{
    add_admin, add_admin_error, init_config_error, initialize_config, remove_admin, without_admin,
    ProtocolConfig, MAX_ADMINS,
};
pub use escrow::{
    can_refund, created_escrow, deposit_funds, deposit_transfer, initialize_escrow, payload_signed,
    pending, record_verification, refund_allowed, refund_buyer, refund_transfer,
    release_error, release_funds, release_transfers, request_chainlink_verification,
    request_matches, submit_verification, verification_error, verified, with_status,
    ChainlinkVerificationCompleted, ChainlinkVerificationRequested, DisputeOutcome, EscrowAccount,
    EscrowStatus, Holder, TokenTransfer, TransferAuthority,
};
pub use dispute::{
    disputed, outcome_result, raise_dispute, raise_dispute_error, resolve_dispute,
    resolve_dispute_error, resolved, DISPUTE_WINDOW,
};
pub use universal::{
    completed, home_chain, initialize_universal_escrow, initiated, on_abort, on_call, on_revert,
    outbound_message, update_zkme_verification, with_universal_status, AbortContext,
    CrossChainAbort, CrossChainAction, CrossChainEscrowInitiated, CrossChainEvent,
    CrossChainMessage, CrossChainRefund, CrossChainRelease, RevertContext, UniversalEscrow,
    UniversalEscrowStatus,
};
pub use laws::{
    lemma_admin_bounds, lemma_dispute_round_trip, lemma_le_bytes_injective,
    lemma_message_injective, lemma_refund_after_expiry, lemma_release_needs_positive_result,
    lemma_stale_timestamp_refused, lemma_terminal_states_are_final,
};
