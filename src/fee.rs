use vstd::prelude::*;
use crate::error::EscrowError;

verus! {

/// The fee rate, in percent, that this deployment charges on release.
pub const PROTOCOL_FEE_PERCENT: u64 = 10;

/// The protocol fee on `amount` at `rate` percent, rounded down.
pub open spec fn fee_of(amount: nat, rate: nat) -> nat {
    (amount * rate) / 100
}

/// The fee on `amount` at `rate` percent: the product is formed first, and
/// the call fails with `MathOverflow` exactly when it does not fit in a `u64`.
pub fn compute_fee(amount: u64, rate: u64) -> (r: Result<u64, EscrowError>)
    ensures
        r is Ok <==> amount * rate <= u64::MAX,
        r is Ok ==> r->Ok_0 == fee_of(amount as nat, rate as nat),
        r is Err ==> r->Err_0 == EscrowError::MathOverflow,
        r is Ok && rate <= 100 ==> r->Ok_0 <= amount,
{
    match amount.checked_mul(rate) {
        None => Err(EscrowError::MathOverflow),
        Some(product) => {
            proof {
                if rate <= 100 {
                    assert(amount * rate <= amount * 100) by (nonlinear_arith)
                        requires rate <= 100;
                }
            }
            Ok(product / 100)
        },
    }
}

/// What the seller receives on release: the amount less the fee, or
/// `MathOverflow` where the fee exceeds the amount.
pub fn seller_amount(amount: u64, fee_amount: u64) -> (r: Result<u64, EscrowError>)
    ensures
        r is Ok <==> fee_amount <= amount,
        r is Ok ==> r->Ok_0 == amount - fee_amount,
        r is Err ==> r->Err_0 == EscrowError::MathOverflow,
{
    match amount.checked_sub(fee_amount) {
        None => Err(EscrowError::MathOverflow),
        Some(rest) => Ok(rest),
    }
}

} // verus!
