//! Scaling of counts over a window to hourly rates.

use vstd::prelude::*;

verus! {

/// What `amount` items of `weight` each, counted over `minutes` minutes, come
/// to in an hour, rounded down.
pub open spec fn hourly(weight: nat, amount: nat, minutes: nat) -> nat {
    60 * (weight * amount) / minutes
}

/// A quotient of at least 2^128 by a divisor below 2^64 is itself at least 2^64.
pub proof fn lemma_large_quotient(dividend: nat, divisor: nat)
    requires
        dividend >= 0x1_0000_0000_0000_0000_0000_0000_0000_0000,
        1 <= divisor < 0x1_0000_0000_0000_0000,
    ensures
        dividend / divisor >= 0x1_0000_0000_0000_0000,
{
    assert(dividend >= 0x1_0000_0000_0000_0000 * divisor) by (nonlinear_arith)
        requires
            dividend >= 0x1_0000_0000_0000_0000_0000_0000_0000_0000,
            1 <= divisor < 0x1_0000_0000_0000_0000,
    ;
    assert(dividend / divisor >= 0x1_0000_0000_0000_0000) by (nonlinear_arith)
        requires
            dividend >= 0x1_0000_0000_0000_0000 * divisor,
            divisor >= 1,
    ;
}

/// Computes [`hourly`], or nothing where the rate does not fit in 64 bits.
pub fn hourly_rate(weight: u128, amount: u64, minutes: u64) -> (rate: Option<u64>)
    requires
        minutes >= 1,
    ensures
        rate is Some <==> hourly(weight as nat, amount as nat, minutes as nat) <= u64::MAX,
        rate matches Some(r) ==> r == hourly(weight as nat, amount as nat, minutes as nat),
{
    let ghost product: nat = (weight as nat) * (amount as nat);
    let volume: u128 = match weight.checked_mul(amount as u128) {
        Some(v) => v,
        None => {
            proof {
                lemma_large_quotient(60 * product, minutes as nat);
            }
            return None;
        },
    };
    let per_hour: u128 = match volume.checked_mul(60) {
        Some(v) => v,
        None => {
            proof {
                lemma_large_quotient(60 * product, minutes as nat);
            }
            return None;
        },
    };
    let rate: u128 = per_hour / (minutes as u128);
    if rate > u64::MAX as u128 {
        None
    } else {
        Some(rate as u64)
    }
}

} // verus!
