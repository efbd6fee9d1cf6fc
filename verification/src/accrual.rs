//! Fixed-point accrual of credits on a stake.
//!
//! A stake of `amount` units held for `elapsed` slots at `rate` earns
//! `amount * elapsed * rate / SCALE` credits, rounded down. The product is formed in 128 bits.
//! Credits that do not fit in a 64-bit balance are forfeited: such a stake earns nothing for
//! that time, whether the product itself still fits in 128 bits or not. No result is ever
//! a wrapped value.

use vstd::arithmetic::div_mod::lemma_div_is_ordered;
use vstd::prelude::*;

verus! {

/// The denominator of the credit rate: a rate of `SCALE` earns one credit per unit per slot.
pub const SCALE: u128 = 1_000_000_000_000_000_000;

/// Whether the credits of `amount` units over `elapsed` slots at `rate` fit in a balance.
///
/// Such a product is below `SCALE * 2^64`, so it also fits in 128 bits.
pub open spec fn representable(amount: nat, elapsed: nat, rate: nat) -> bool {
    amount * elapsed * rate / (SCALE as nat) <= u64::MAX
}

/// The credits that `amount` units earn over `elapsed` slots at `rate`: the rounded-down
/// quotient where it fits in a balance, and nothing where it does not.
pub open spec fn accrued(amount: nat, elapsed: nat, rate: nat) -> nat {
    let whole = amount * elapsed * rate / (SCALE as nat);
    if whole > u64::MAX {
        0
    } else {
        whole
    }
}

/// Computes the credits that `amount` units earn over `elapsed` slots at `rate`.
pub fn accrue(amount: u64, elapsed: u64, rate: u64) -> (earned: u64)
    ensures
        earned == accrued(amount as nat, elapsed as nat, rate as nat),
        amount == 0 || elapsed == 0 ==> earned == 0,
{
    proof {
        assert(amount * elapsed <= u128::MAX) by (nonlinear_arith)
            requires
                amount <= u64::MAX,
                elapsed <= u64::MAX,
        ;
        accrued_is_zero_on_empty(amount as nat, elapsed as nat, rate as nat);
    }
    let held: u128 = (amount as u128).checked_mul(elapsed as u128).unwrap_or(0);
    match held.checked_mul(rate as u128) {
        None => {
            proof {
                wide_product_is_not_representable(amount as nat, elapsed as nat, rate as nat);
            }
            0
        },
        Some(scaled) => {
            let whole: u128 = scaled / SCALE;
            if whole > u64::MAX as u128 {
                0
            } else {
                whole as u64
            }
        },
    }
}

/// A product that does not fit in 128 bits gives credits that do not fit in a balance.
proof fn wide_product_is_not_representable(amount: nat, elapsed: nat, rate: nat)
    requires
        amount * elapsed * rate > u128::MAX,
    ensures
        !representable(amount, elapsed, rate),
{
    let product = amount * elapsed * rate;
    let least: int = u128::MAX + 1;
    lemma_div_is_ordered(least, product as int, SCALE as int);
    assert(least / (SCALE as int) > u64::MAX);
}

/// A stake of nothing, or one held for no time, earns nothing.
pub proof fn accrued_is_zero_on_empty(amount: nat, elapsed: nat, rate: nat)
    ensures
        amount == 0 || elapsed == 0 ==> accrued(amount, elapsed, rate) == 0,
{
    if amount == 0 || elapsed == 0 {
        assert(amount * elapsed * rate == 0) by (nonlinear_arith)
            requires
                amount == 0 || elapsed == 0,
        ;
        assert(0nat / (SCALE as nat) == 0);
    }
}

/// What a stake earns is the rounded-down quotient where that fits in a balance, and nothing
/// where it does not: never a value that the quotient does not justify. A product whose
/// quotient fits in a balance fits in 128 bits.
pub proof fn accrued_is_floor_or_nothing(amount: nat, elapsed: nat, rate: nat)
    ensures
        accrued(amount, elapsed, rate) <= u64::MAX,
        representable(amount, elapsed, rate) ==> accrued(amount, elapsed, rate) == amount
            * elapsed * rate / (SCALE as nat),
        representable(amount, elapsed, rate) ==> amount * elapsed * rate <= u128::MAX,
        !representable(amount, elapsed, rate) ==> accrued(amount, elapsed, rate) == 0,
{
    if amount * elapsed * rate > u128::MAX {
        wide_product_is_not_representable(amount, elapsed, rate);
    }
}

/// Within the representable range, more stake, more time or a higher rate never earns less.
pub proof fn accrued_is_monotonic(
    amount: nat,
    elapsed: nat,
    rate: nat,
    more_amount: nat,
    more_elapsed: nat,
    more_rate: nat,
)
    requires
        amount <= more_amount,
        elapsed <= more_elapsed,
        rate <= more_rate,
        representable(more_amount, more_elapsed, more_rate),
    ensures
        representable(amount, elapsed, rate),
        accrued(amount, elapsed, rate) <= accrued(more_amount, more_elapsed, more_rate),
{
    let low = amount * elapsed * rate;
    let high = more_amount * more_elapsed * more_rate;
    assert(low <= high) by (nonlinear_arith)
        requires
            low == amount * elapsed * rate,
            high == more_amount * more_elapsed * more_rate,
            amount <= more_amount,
            elapsed <= more_elapsed,
            rate <= more_rate,
    ;
    lemma_div_is_ordered(low as int, high as int, SCALE as int);
}

} // verus!
