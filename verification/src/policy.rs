//! Fee and limit policy: validates a gross amount against the configured
//! inclusive bounds and prices it by integer basis-point arithmetic with
//! truncating division.

use vstd::prelude::*;
use crate::errors::BridgeError;

verus! {

/// Fees are expressed in basis points: 1 bps = 0.01%.
pub const FEE_DENOMINATOR: u64 = 10000;

/// Hard ceiling on the configurable fee: 10%.
pub const MAX_FEE_BPS: u64 = 1000;

/// The fee deducted from a gross amount: `floor(amount * fee_bps / 10000)`.
pub open spec fn fee_of(amount: u64, fee_bps: u64) -> int {
    (amount * fee_bps) / (FEE_DENOMINATOR as int)
}

/// The net amount credited on the destination side.
pub open spec fn net_of(amount: u64, fee_bps: u64) -> int {
    amount - fee_of(amount, fee_bps)
}

/// As long as the fee rate does not exceed 100%, the fee never exceeds
/// the gross amount.
pub proof fn lemma_fee_le_amount(amount: u64, fee_bps: u64)
    requires
        fee_bps <= FEE_DENOMINATOR,
    ensures
        0 <= fee_of(amount, fee_bps) <= amount,
{
    assert(0 <= (amount * fee_bps) / (FEE_DENOMINATOR as int) <= amount) by (nonlinear_arith)
        requires
            0 <= amount,
            0 <= fee_bps <= FEE_DENOMINATOR,
            FEE_DENOMINATOR == 10000,
    ;
}

/// Computes the fee and net amount for a gross `amount` at `fee_bps`.
/// Returns `(net, fee)`; the intermediate product is widened so the
/// computation never overflows.
pub fn price_amount(amount: u64, fee_bps: u64) -> (r: (u64, u64))
    requires
        fee_bps <= FEE_DENOMINATOR,
    ensures
        r.1 == fee_of(amount, fee_bps),
        r.0 == net_of(amount, fee_bps),
        r.0 + r.1 == amount,
{
    proof {
        lemma_fee_le_amount(amount, fee_bps);
    }
    let wide: u128 = (amount as u128) * (fee_bps as u128) / (FEE_DENOMINATOR as u128);
    let fee: u64 = wide as u64;
    (amount - fee, fee)
}

/// Validates `amount` against the inclusive `[min_amount, max_amount]`
/// bounds and prices it. Returns `Ok((net, fee))` exactly when the amount
/// is within bounds, and `Err(InvalidAmount)` otherwise; the two parts
/// always add back up to the gross amount.
pub fn validate_and_price(amount: u64, min_amount: u64, max_amount: u64, fee_bps: u64) -> (r:
    Result<(u64, u64), BridgeError>)
    requires
        fee_bps <= FEE_DENOMINATOR,
    ensures
        r is Ok <==> min_amount <= amount <= max_amount,
        r is Err ==> r == Err::<(u64, u64), BridgeError>(BridgeError::InvalidAmount),
        r matches Ok(p) ==> p.1 == fee_of(amount, fee_bps) && p.0 == net_of(amount, fee_bps)
            && p.0 + p.1 == amount,
{
    if amount < min_amount || amount > max_amount {
        return Err(BridgeError::InvalidAmount);
    }
    Ok(price_amount(amount, fee_bps))
}

} // verus!
