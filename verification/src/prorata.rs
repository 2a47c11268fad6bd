//! Pro-rata engine: overflow-safe fixed-point arithmetic.
//!
//! Rates are scaled integers with nine implied decimal places.  Every
//! product is widened to 128 bits before dividing, and a result that does
//! not fit back into 64 bits is reported as `CalculationOverflow` instead
//! of being truncated.  Rounding is always floor (toward zero).

use vstd::prelude::*;

use crate::errors::ErrorCode;

verus! {

/// Fixed-point scale factor: rates carry nine implied decimal places.
pub const PRECISION_FACTOR: u64 = 1_000_000_000;

/// Mathematical minimum contribution for `points` credits at `rate`:
/// floor(points * rate / 10^9).
pub open spec fn spec_required_contribution(points: u64, rate: u64) -> int {
    (points * rate) / (PRECISION_FACTOR as int)
}

/// Mathematical pro-rata share of `pool` for `user_score` out of
/// `total_score`: floor(pool * user_score / total_score).
pub open spec fn spec_claim_amount(pool: u64, user_score: u64, total_score: u64) -> int
    recommends
        total_score > 0,
{
    (pool * user_score) / (total_score as int)
}

/// Minimum contribution owed for `points` credits at fixed-point `rate`.
///
/// The product is widened to 128 bits, so the multiplication itself cannot
/// overflow; the division result is checked against the 64-bit range.
pub fn required_contribution(points: u64, rate: u64) -> (r: Result<u64, ErrorCode>)
    ensures
        match r {
            Ok(v) => v == spec_required_contribution(points, rate),
            Err(e) => e == ErrorCode::CalculationOverflow
                && spec_required_contribution(points, rate) > u64::MAX,
        },
{
    proof {
        assert((points as u128) * (rate as u128) <= u128::MAX) by (nonlinear_arith)
            requires
                points <= u64::MAX,
                rate <= u64::MAX,
        ;
    }
    let product: u128 = (points as u128) * (rate as u128);
    let quotient: u128 = product / (PRECISION_FACTOR as u128);
    if quotient > u64::MAX as u128 {
        Err(ErrorCode::CalculationOverflow)
    } else {
        Ok(quotient as u64)
    }
}

/// Pro-rata token allocation: floor(pool * user_score / total_score).
///
/// Fails with `NoCommitments` when `total_score` is zero (no share exists)
/// and with `CalculationOverflow` when the exact share does not fit in 64
/// bits, which cannot happen while `user_score <= total_score`
/// (`lemma_claim_amount_bounded`).
pub fn claim_amount(pool: u64, user_score: u64, total_score: u64) -> (r: Result<u64, ErrorCode>)
    ensures
        match r {
            Ok(v) => total_score > 0 && v == spec_claim_amount(pool, user_score, total_score),
            Err(e) => (e == ErrorCode::NoCommitments && total_score == 0) || (
            e == ErrorCode::CalculationOverflow && total_score > 0 && spec_claim_amount(
                pool,
                user_score,
                total_score,
            ) > u64::MAX),
        },
{
    if total_score == 0 {
        return Err(ErrorCode::NoCommitments);
    }
    proof {
        assert((pool as u128) * (user_score as u128) <= u128::MAX) by (nonlinear_arith)
            requires
                pool <= u64::MAX,
                user_score <= u64::MAX,
        ;
    }
    let numerator: u128 = (pool as u128) * (user_score as u128);
    let quotient: u128 = numerator / (total_score as u128);
    if quotient > u64::MAX as u128 {
        Err(ErrorCode::CalculationOverflow)
    } else {
        Ok(quotient as u64)
    }
}

/// A claimant's share never exceeds the pool while its score is at most the
/// total score, so `claim_amount` cannot overflow on ledger-consistent
/// inputs.
pub proof fn lemma_claim_amount_bounded(pool: u64, user_score: u64, total_score: u64)
    requires
        0 < total_score,
        user_score <= total_score,
    ensures
        spec_claim_amount(pool, user_score, total_score) <= pool,
{
    assert(pool * user_score <= pool * total_score) by (nonlinear_arith)
        requires
            user_score <= total_score,
            0 <= pool,
    ;
    vstd::arithmetic::div_mod::lemma_div_is_ordered(
        pool * user_score,
        pool * total_score,
        total_score as int,
    );
    vstd::arithmetic::mul::lemma_mul_is_commutative(pool as int, total_score as int);
    vstd::arithmetic::div_mod::lemma_div_multiples_vanish(pool as int, total_score as int);
}

} // verus!
