use vstd::prelude::*;

use crate::errors::DiceError;

verus! {

/// House edge in basis points (1.5%).
pub const HOUSE_EDGE: u64 = 150;

/// Smallest accepted stake, in lamports.
pub const MIN_BET_LAMPORTS: u64 = 10_000_000;

/// Smallest accepted roll threshold.
pub const MIN_ROLL: u8 = 2;

/// Largest accepted roll threshold.
pub const MAX_ROLL: u8 = 96;

/// The payout owed on a win: `floor(amount * (10000 - HOUSE_EDGE) / (roll * 100))`.
pub open spec fn payout_of(amount: int, roll: int) -> int {
    amount * (10000 - HOUSE_EDGE) / (roll * 100)
}

/// Computes the payout of a winning bet with 128-bit intermediates.
/// Fails with `ArithmeticOverflow` when the roll is zero (no divisor) or
/// the quotient does not fit in 64 bits.
pub fn calculate_payout(amount: u64, roll: u8) -> (r: Result<u64, DiceError>)
    ensures
        roll == 0 ==> r == Err::<u64, DiceError>(DiceError::ArithmeticOverflow),
        roll > 0 && payout_of(amount as int, roll as int) <= u64::MAX ==> r == Ok::<u64, DiceError>(
            payout_of(amount as int, roll as int) as u64,
        ),
        roll > 0 && payout_of(amount as int, roll as int) > u64::MAX ==> r == Err::<u64, DiceError>(
            DiceError::ArithmeticOverflow,
        ),
{
    assert(amount as int * 9850 <= u128::MAX) by (nonlinear_arith)
        requires
            amount <= u64::MAX,
    ;
    let numerator: u128 = match (amount as u128).checked_mul((10_000 - HOUSE_EDGE) as u128) {
        Some(n) => n,
        None => return Err(DiceError::ArithmeticOverflow),
    };
    let denom: u128 = match (roll as u128).checked_mul(100u128) {
        Some(d) => d,
        None => return Err(DiceError::ArithmeticOverflow),
    };
    let payout: u128 = match numerator.checked_div(denom) {
        Some(p) => p,
        None => return Err(DiceError::ArithmeticOverflow),
    };
    if payout > u64::MAX as u128 {
        return Err(DiceError::ArithmeticOverflow);
    }
    Ok(payout as u64)
}

proof fn lemma_floor_div_strict(n: int, d1: int, d2: int)
    requires
        0 < d1 < d2,
        n >= d2 * d2,
    ensures
        n / d2 < n / d1,
{
    let q1 = n / d1;
    let q2 = n / d2;
    vstd::arithmetic::div_mod::lemma_fundamental_div_mod(n, d1);
    vstd::arithmetic::div_mod::lemma_fundamental_div_mod(n, d2);
    vstd::arithmetic::div_mod::lemma_mod_bound(n, d1);
    vstd::arithmetic::div_mod::lemma_mod_bound(n, d2);
    assert(q1 > q2) by (nonlinear_arith)
        requires
            0 < d1 < d2,
            n >= d2 * d2,
            n == d1 * q1 + n % d1,
            n == d2 * q2 + n % d2,
            0 <= n % d1 < d1,
            0 <= n % d2 < d2,
    {
        if q1 <= q2 {
            assert(q2 + 1 > d2);
            assert(q2 * d2 <= n);
            assert(n < (q1 + 1) * d1);
            assert((q1 + 1) * d1 <= (q2 + 1) * d1);
            assert(q2 * (d2 - d1) < d1);
            assert(q2 * (d2 - d1) >= q2);
        }
    }
}

/// For a fixed stake of at least the minimum bet, a higher roll threshold
/// (a likelier win) always pays strictly less.
pub proof fn lemma_payout_strictly_decreasing(amount: u64, roll1: u8, roll2: u8)
    requires
        amount >= MIN_BET_LAMPORTS,
        MIN_ROLL <= roll1 < roll2 <= MAX_ROLL,
    ensures
        payout_of(amount as int, roll2 as int) < payout_of(amount as int, roll1 as int),
{
    let n = amount * (10000 - HOUSE_EDGE);
    assert(n >= 9600 * 9600) by (nonlinear_arith)
        requires
            amount >= 10_000_000,
            n == amount * 9850,
    ;
    assert((roll2 as int * 100) * (roll2 as int * 100) <= 9600 * 9600) by (nonlinear_arith)
        requires
            0 <= roll2 <= 96,
    ;
    lemma_floor_div_strict(n, roll1 as int * 100, roll2 as int * 100);
}

} // verus!
