use vstd::prelude::*;

use crate::errors::CrowdfundingError;

verus! {

/// One hundred percent expressed in basis points.
pub const MAX_BASIS_POINTS: u32 = 10_000;

/// The fee on `amount` at `basis_points`: the exact product, rounded down,
/// when it fits in an `i128`; otherwise the amount is divided first, which
/// loses less than one basis unit of precision but never overflows.
pub open spec fn fee_of(amount: int, basis_points: int) -> int {
    if amount * basis_points <= i128::MAX {
        (amount * basis_points) / 10_000
    } else {
        (amount / 10_000) * basis_points
    }
}

/// Platform fee on `amount` at a rate of `basis_points` (10 000 = 100%).
pub fn calculate_platform_fee(amount: i128, basis_points: u32) -> (r: Result<i128, CrowdfundingError>)
    ensures
        amount < 0 ==> r == Err::<i128, CrowdfundingError>(CrowdfundingError::InvalidAmount),
        amount >= 0 && basis_points > 10_000 ==> r == Err::<i128, CrowdfundingError>(
            CrowdfundingError::InvalidFeeBasisPoints,
        ),
        amount >= 0 && basis_points <= 10_000 ==> r == Ok::<i128, CrowdfundingError>(
            fee_of(amount as int, basis_points as int) as i128,
        ),
{
    if amount < 0 {
        return Err(CrowdfundingError::InvalidAmount);
    }
    if basis_points > MAX_BASIS_POINTS {
        return Err(CrowdfundingError::InvalidFeeBasisPoints);
    }
    if basis_points == 0 || amount == 0 {
        proof {
            assert(amount * basis_points == 0) by (nonlinear_arith)
                requires basis_points == 0 || amount == 0;
        }
        return Ok(0);
    }
    let fee = match amount.checked_mul(basis_points as i128) {
        Some(product) => product / (MAX_BASIS_POINTS as i128),
        None => {
            proof {
                assert(amount / 10_000 * basis_points <= amount) by (nonlinear_arith)
                    requires amount >= 0, 0 <= basis_points <= 10_000;
                assert(amount / 10_000 * basis_points >= 0) by (nonlinear_arith)
                    requires amount >= 0, 0 <= basis_points <= 10_000;
            }
            (amount / (MAX_BASIS_POINTS as i128)) * (basis_points as i128)
        },
    };
    Ok(fee)
}

/// Rounding down by 10 000 loses at most one unit across a split of the
/// numerator.
proof fn lemma_floor_split(x: int, y: int)
    requires
        x >= 0,
        y >= 0,
    ensures
        x / 10_000 + y / 10_000 <= (x + y) / 10_000 <= x / 10_000 + y / 10_000 + 1,
{
}

/// The fee is a function of its two inputs (the same call always gives the
/// same result), never negative and never more than the amount.
pub proof fn lemma_fee_bounded(amount: int, basis_points: int)
    requires
        0 <= amount <= i128::MAX,
        0 <= basis_points <= 10_000,
    ensures
        0 <= fee_of(amount, basis_points) <= amount,
{
    if amount * basis_points <= i128::MAX {
        assert(0 <= amount * basis_points <= amount * 10_000) by (nonlinear_arith)
            requires 0 <= amount, 0 <= basis_points <= 10_000;
    } else {
        assert(0 <= (amount / 10_000) * basis_points <= (amount / 10_000) * 10_000)
            by (nonlinear_arith)
            requires 0 <= amount, 0 <= basis_points <= 10_000;
    }
}

/// Splitting an amount in two parts changes the total fee by at most one
/// unit, as long as the product of the whole amount and the rate fits.
pub proof fn lemma_fee_additive(a: int, b: int, basis_points: int)
    requires
        a >= 0,
        b >= 0,
        0 <= basis_points <= 10_000,
        (a + b) * basis_points <= i128::MAX,
    ensures
        fee_of(a, basis_points) + fee_of(b, basis_points) <= fee_of(a + b, basis_points),
        fee_of(a + b, basis_points) <= fee_of(a, basis_points) + fee_of(b, basis_points) + 1,
{
    assert((a + b) * basis_points == a * basis_points + b * basis_points) by (nonlinear_arith);
    assert(a * basis_points >= 0 && b * basis_points >= 0) by (nonlinear_arith)
        requires a >= 0, b >= 0, basis_points >= 0;
    lemma_floor_split(a * basis_points, b * basis_points);
}

/// Doubling the amount doubles the fee, up to one unit of rounding, as long
/// as the product of the doubled amount and the rate fits.
pub proof fn lemma_fee_proportional(amount: int, basis_points: int)
    requires
        amount >= 0,
        0 <= basis_points <= 10_000,
        2 * amount * basis_points <= i128::MAX,
    ensures
        2 * fee_of(amount, basis_points) <= fee_of(2 * amount, basis_points),
        fee_of(2 * amount, basis_points) <= 2 * fee_of(amount, basis_points) + 1,
{
    assert(2 * amount * basis_points == (amount + amount) * basis_points) by (nonlinear_arith);
    lemma_fee_additive(amount, amount, basis_points);
}

} // verus!
