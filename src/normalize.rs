use vstd::prelude::*;

use crate::error::HakoError;

verus! {

/// The precision, in decimal places, that every amount is rescaled to.
pub const NORMALIZED_DECIMALS: u8 = 18;

/// Ten to the power `n`.
pub open spec fn pow10(n: nat) -> nat
    decreases n,
{
    if n == 0 {
        1
    } else {
        10 * pow10((n - 1) as nat)
    }
}

/// `amount`, given with `decimals` decimal places, expressed with
/// `NORMALIZED_DECIMALS` places.
pub open spec fn normalized(amount: nat, decimals: nat) -> nat
    recommends
        decimals <= NORMALIZED_DECIMALS,
{
    amount * pow10((NORMALIZED_DECIMALS - decimals) as nat)
}

pub proof fn lemma_pow10_monotone(a: nat, b: nat)
    requires
        a <= b,
    ensures
        pow10(a) <= pow10(b),
    decreases b,
{
    if a < b {
        lemma_pow10_monotone(a, (b - 1) as nat);
    }
}

pub proof fn lemma_pow10_bound(n: nat)
    requires
        n <= 18,
    ensures
        pow10(n) <= 1_000_000_000_000_000_000,
{
    lemma_pow10_monotone(n, 18);
    reveal_with_fuel(pow10, 19);
    assert(pow10(18) == 1_000_000_000_000_000_000);
}

/// Rescales `amount`, given with `decimals` decimal places, to
/// `NORMALIZED_DECIMALS` places. Precision above `NORMALIZED_DECIMALS` is
/// refused; a product that does not fit in 128 bits is an overflow, never
/// truncated.
pub fn normalize_amount(amount: u64, decimals: u8) -> (r: Result<u128, HakoError>)
    ensures
        decimals > NORMALIZED_DECIMALS ==> r == Err::<u128, HakoError>(HakoError::DecimalsTooHigh),
        decimals <= NORMALIZED_DECIMALS && normalized(amount as nat, decimals as nat)
            <= u128::MAX ==> r == Ok::<u128, HakoError>(
            normalized(amount as nat, decimals as nat) as u128,
        ),
        decimals <= NORMALIZED_DECIMALS && normalized(amount as nat, decimals as nat)
            > u128::MAX ==> r == Err::<u128, HakoError>(HakoError::MathOverflow),
{
    if decimals > NORMALIZED_DECIMALS {
        return Err(HakoError::DecimalsTooHigh);
    }
    let exp: u8 = NORMALIZED_DECIMALS - decimals;
    let mut factor: u128 = 1;
    let mut i: u8 = 0;
    while i < exp
        invariant
            i <= exp <= 18,
            factor == pow10(i as nat),
        decreases exp - i,
    {
        proof {
            lemma_pow10_bound(i as nat);
        }
        match factor.checked_mul(10) {
            Some(f) => {
                factor = f;
            },
            None => {
                return Err(HakoError::MathOverflow);
            },
        }
        i = i + 1;
    }
    match (amount as u128).checked_mul(factor) {
        Some(n) => Ok(n),
        None => Err(HakoError::MathOverflow),
    }
}

/// A `u64` amount with at most `NORMALIZED_DECIMALS` places always fits in
/// 128 bits once normalized.
pub proof fn lemma_normalized_fits(amount: u64, decimals: u8)
    requires
        decimals <= NORMALIZED_DECIMALS,
    ensures
        0 <= normalized(amount as nat, decimals as nat) <= u128::MAX,
{
    let p = pow10((NORMALIZED_DECIMALS - decimals) as nat);
    lemma_pow10_bound((NORMALIZED_DECIMALS - decimals) as nat);
    assert(amount * p <= 0xffff_ffff_ffff_ffffnat * 1_000_000_000_000_000_000nat) by (nonlinear_arith)
        requires
            amount <= 0xffff_ffff_ffff_ffffnat,
            p <= 1_000_000_000_000_000_000nat,
    ;
}

} // verus!
