use vstd::prelude::*;

verus! {

/// Why an escrow or configuration operation was refused. A refused operation
/// leaves every record as it was.
#[derive(Clone, Copy, Debug, PartialEq, Eq, Structural)]
pub enum EscrowError {
    /// The record is not in a state that admits the operation.
    InvalidEscrowState,
    /// Release was asked for, but the recorded verification result is not `true`.
    VerificationFailed,
    /// A dispute is open on the record.
    DisputeActive,
    /// A dispute was already raised on the record.
    DisputeAlreadyRaised,
    /// None of the refund conditions holds.
    RefundNotAllowed,
    /// An amount or a time went beyond the range of its integer type.
    MathOverflow,
    /// The caller is not the configuration's authority, or not one of its admins.
    UnauthorizedAdmin,
    /// The admin list would hold more than five identities.
    TooManyAdmins,
    /// The identity is already in the admin list.
    AdminAlreadyExists,
    /// The submitting agent is not the verifier registered on the record.
    UnauthorizedAIAgent,
    /// The signature does not verify over the canonical message.
    InvalidSignature,
    /// The signed timestamp is more than five minutes away from now.
    TimestampTooOld,
    /// An identity proof is required first.
    ZkmeVerificationRequired,
    /// The submitted oracle request id differs from the recorded one.
    InvalidChainlinkRequest,
}

/// Why a cross-chain message was refused.
#[derive(Clone, Copy, Debug, PartialEq, Eq, Structural)]
pub enum UniversalError {
    /// The cross-chain record is not in a state that admits the message.
    InvalidStatus,
    /// The message carries an action that inbound calls do not handle.
    UnsupportedAction,
    /// An amount went beyond the range of its integer type.
    MathOverflow,
}

} // verus!
