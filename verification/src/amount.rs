//! Amounts: whole tokens in base units, and powers that fit in 64 bits.

use vstd::prelude::*;
use vstd::arithmetic::power::{pow, lemma_pow0, lemma_pow_increases, lemma_pow_positive};

verus! {

/// An amount of whole tokens in base units: `amount` times ten to the
/// `decimals`.
pub open spec fn scaled(amount: int, decimals: nat) -> int {
    amount * pow(10, decimals)
}

/// An amount in base units is at least the amount in whole tokens, so it
/// is not negative.
pub proof fn lemma_scaled_bounds(amount: int, decimals: nat)
    requires
        amount >= 0,
    ensures
        scaled(amount, decimals) >= amount,
{
    lemma_pow_positive(10, decimals);
    let factor = pow(10, decimals);
    assert(amount * factor >= amount) by (nonlinear_arith)
        requires
            amount >= 0,
            factor >= 1,
    ;
}

/// `base` to the `exp`, where that fits in 64 bits.
pub fn checked_pow(base: u64, exp: u32) -> (r: Option<u64>)
    ensures
        match r {
            Some(v) => v == pow(base as int, exp as nat),
            None => pow(base as int, exp as nat) > u64::MAX,
        },
{
    let mut acc: u64 = 1;
    let mut i: u32 = 0;
    proof {
        lemma_pow0(base as int);
    }
    while i < exp
        invariant
            i <= exp,
            acc == pow(base as int, i as nat),
        decreases exp - i,
    {
        assert(pow(base as int, (i + 1) as nat) == base * pow(base as int, i as nat)) by {
            reveal_with_fuel(pow, 1);
        }
        assert(acc * base == base * acc) by (nonlinear_arith);
        match acc.checked_mul(base) {
            Some(next) => {
                acc = next;
            },
            None => {
                proof {
                    assert(base > 0) by (nonlinear_arith)
                        requires
                            acc * base > u64::MAX,
                    ;
                    lemma_pow_increases(base as nat, (i + 1) as nat, exp as nat);
                }
                return None;
            },
        }
        i += 1;
    }
    Some(acc)
}

/// `amount` whole tokens in base units, where that fits in 64 bits.
pub fn scale_amount(amount: u64, decimals: u8) -> (r: Option<u64>)
    ensures
        match r {
            Some(v) => v == scaled(amount as int, decimals as nat),
            None => scaled(amount as int, decimals as nat) > u64::MAX,
        },
{
    let ghost factor = pow(10, decimals as nat);
    match checked_pow(10, decimals as u32) {
        Some(f) => {
            assert(f == factor);
            amount.checked_mul(f)
        },
        None => {
            if amount == 0 {
                assert(0 * factor == 0) by (nonlinear_arith);
                Some(0)
            } else {
                assert(amount * factor > u64::MAX) by (nonlinear_arith)
                    requires
                        amount >= 1,
                        factor > u64::MAX,
                ;
                None
            }
        },
    }
}

} // verus!
