//! Linear vesting: how much of a committed total may be claimed at a given time.

use vstd::arithmetic::div_mod::{
    lemma_div_is_ordered, lemma_div_multiples_vanish, lemma_fundamental_div_mod,
    lemma_fundamental_div_mod_converse, lemma_mod_bound,
};
use vstd::arithmetic::mul::{
    lemma_mul_inequality, lemma_mul_is_commutative, lemma_mul_is_distributive_add_other_way,
    lemma_mul_is_associative,
};
use vstd::prelude::*;

verus! {

/// Whether `x` can be held in the 128-bit signed integer that amounts are kept in.
pub open spec fn fits_amount(x: int) -> bool {
    i128::MIN <= x <= i128::MAX
}

/// Whether the two intermediate products of the vesting formula can both be held
/// in an amount: the whole units per second times the seconds elapsed, and the
/// remainder times the seconds elapsed.
pub open spec fn products_fit(total: int, elapsed: int, duration: int) -> bool {
    fits_amount((total / duration) * elapsed) && fits_amount((total % duration) * elapsed)
}

/// The amount of `total` that is claimable at time `now`, for a schedule that
/// starts at `start` and runs for `duration` seconds.
///
/// Nothing is claimable up to `start` and everything from `start + duration` on.
/// In between the amount grows linearly, rounded down. A schedule of no duration
/// vests in full at `start`. Where an intermediate product of the formula cannot
/// be held in an amount, the whole of `total` is claimable: the rounding of last
/// resort favours the beneficiary.
pub open spec fn claimable_balance(total: int, start: int, now: int, duration: int) -> int {
    if duration == 0 {
        if now >= start {
            total
        } else {
            0
        }
    } else if now <= start {
        0
    } else if now - start >= duration {
        total
    } else if products_fit(total, now - start, duration) {
        (total * (now - start)) / duration
    } else {
        total
    }
}

/// Splitting `total` into whole units and remainder before multiplying gives the
/// same amount as multiplying first: `q * e + (r * e) / d == (total * e) / d`.
proof fn lemma_split_product(total: int, elapsed: int, duration: int)
    requires
        duration > 0,
        elapsed >= 0,
    ensures
        (total / duration) * elapsed + ((total % duration) * elapsed) / duration == (total
            * elapsed) / duration,
{
    let q = total / duration;
    let r = total % duration;
    let y = r * elapsed;
    lemma_fundamental_div_mod(total, duration);
    lemma_fundamental_div_mod(y, duration);
    lemma_mod_bound(y, duration);
    assert(total * elapsed == (q * elapsed + y / duration) * duration + y % duration) by {
        assert(total * elapsed == (duration * q) * elapsed + r * elapsed) by {
            lemma_mul_is_distributive_add_other_way(elapsed, duration * q, r);
        }
        assert((duration * q) * elapsed == (q * elapsed) * duration) by {
            lemma_mul_is_commutative(duration, q);
            lemma_mul_is_associative(q, duration, elapsed);
            lemma_mul_is_commutative(duration, elapsed);
            lemma_mul_is_associative(q, elapsed, duration);
        }
        assert((q * elapsed + y / duration) * duration == (q * elapsed) * duration + (y
            / duration) * duration) by {
            lemma_mul_is_distributive_add_other_way(duration, q * elapsed, y / duration);
        }
        lemma_mul_is_commutative(duration, y / duration);
    }
    lemma_fundamental_div_mod_converse(
        total * elapsed,
        duration,
        q * elapsed + y / duration,
        y % duration,
    );
}

/// Part way through the schedule the linear amount lies between nothing and `total`.
proof fn lemma_linear_bounds(total: int, elapsed: int, duration: int)
    requires
        0 <= elapsed < duration,
    ensures
        total >= 0 ==> 0 <= (total * elapsed) / duration <= total,
        total <= 0 ==> total <= (total * elapsed) / duration <= 0,
{
    lemma_div_multiples_vanish(total, duration);
    lemma_mul_is_commutative(total, duration);
    lemma_mul_is_commutative(total, elapsed);
    if total >= 0 {
        lemma_mul_inequality(elapsed, duration, total);
        lemma_mul_inequality(0, elapsed, total);
        lemma_div_is_ordered(total * elapsed, total * duration, duration);
        lemma_div_is_ordered(0, total * elapsed, duration);
    } else {
        lemma_mul_inequality(elapsed, duration, -total);
        lemma_mul_inequality(0, elapsed, -total);
        assert(total * elapsed >= total * duration) by (nonlinear_arith)
            requires
                elapsed * (-total) <= duration * (-total),
        ;
        assert(total * elapsed <= 0) by (nonlinear_arith)
            requires
                0 * (-total) <= elapsed * (-total),
        ;
        lemma_div_is_ordered(total * duration, total * elapsed, duration);
        lemma_div_is_ordered(total * elapsed, 0, duration);
    }
}

/// Computes the amount of `total` that is claimable at time `now`.
///
/// The linear part is computed as `q * elapsed + (r * elapsed) / duration`, with
/// `q` and `r` the quotient and remainder of `total` by `duration`, so that no
/// intermediate value is larger than it has to be. Where one of the two products
/// still cannot be held, the result is `total`.
pub fn compute_claimable_balance(total: i128, start: u64, now: u64, duration: u64) -> (claimable:
    i128)
    ensures
        claimable == claimable_balance(total as int, start as int, now as int, duration as int),
        duration > 0 && now == start ==> claimable == 0,
        duration > 0 && now == start + duration ==> claimable == total,
        now >= start + duration ==> claimable == total,
        duration == 0 && now < start ==> claimable == 0,
        duration == 0 && now >= start ==> claimable == total,
{
    if duration == 0 {
        return if now >= start {
            total
        } else {
            0
        };
    }
    if now <= start {
        return 0;
    }
    let elapsed: u64 = now - start;
    if elapsed >= duration {
        return total;
    }
    let span: i128 = duration as i128;
    let passed: i128 = elapsed as i128;
    proof {
        lemma_fundamental_div_mod(total as int, span as int);
        lemma_mod_bound(total as int, span as int);
        assert(i128::MIN <= (total as int) / (span as int) <= i128::MAX) by (nonlinear_arith)
            requires
                span >= 1,
                i128::MIN <= total <= i128::MAX,
                total as int == (span as int) * ((total as int) / (span as int)) + (total as int)
                    % (span as int),
                0 <= (total as int) % (span as int) < span,
        ;
    }
    match (total.checked_div_euclid(span), total.checked_rem_euclid(span)) {
        (Some(whole), Some(rest)) => match (whole.checked_mul(passed), rest.checked_mul(passed)) {
            (Some(vested_whole), Some(vested_rest)) => {
                proof {
                    lemma_split_product(total as int, passed as int, span as int);
                    lemma_linear_bounds(total as int, passed as int, span as int);
                    assert(vested_rest >= 0) by (nonlinear_arith)
                        requires
                            vested_rest == rest * passed,
                            rest >= 0,
                            passed >= 0,
                    ;
                }
                vested_whole + vested_rest / span
            },
            _ => total,
        },
        // The span is positive and no amount is lost in dividing by it, so there
        // always is a quotient and a remainder.
        _ => total,
    }
}

/// Nothing is claimable at the start of a schedule that has a duration, and
/// everything at its end and ever after.
pub proof fn lemma_claimable_at_the_ends(total: int, start: int, now: int, duration: int)
    requires
        duration > 0,
    ensures
        claimable_balance(total, start, start, duration) == 0,
        claimable_balance(total, start, start + duration, duration) == total,
        now >= start + duration ==> claimable_balance(total, start, now, duration) == total,
{
}

/// A schedule of no duration is a step: nothing is claimable before the start,
/// and everything from the start on.
pub proof fn lemma_no_duration_is_a_step(total: int, start: int, now: int)
    ensures
        now < start ==> claimable_balance(total, start, now, 0) == 0,
        now >= start ==> claimable_balance(total, start, now, 0) == total,
{
}

/// The claimable amount of a non-negative total never shrinks as time passes.
pub proof fn lemma_claimable_monotonic(total: int, start: int, now1: int, now2: int, duration: int)
    requires
        total >= 0,
        duration >= 0,
        now1 < now2,
    ensures
        claimable_balance(total, start, now1, duration) <= claimable_balance(
            total,
            start,
            now2,
            duration,
        ),
{
    lemma_claimable_within_total(total, start, now1, duration);
    lemma_claimable_within_total(total, start, now2, duration);
    if duration > 0 && start < now1 && now2 - start < duration {
        let e1 = now1 - start;
        let e2 = now2 - start;
        let q = total / duration;
        let r = total % duration;
        lemma_mod_bound(total, duration);
        lemma_div_is_ordered(0, total, duration);
        // With a non-negative total both products grow with the time elapsed:
        // once one of them no longer fits, it stays that way.
        assert(products_fit(total, e2, duration) ==> products_fit(total, e1, duration))
            by (nonlinear_arith)
            requires
                0 <= q,
                0 <= r,
                0 < e1 < e2,
                products_fit(total, e1, duration) == (fits_amount(q * e1) && fits_amount(r * e1)),
                products_fit(total, e2, duration) == (fits_amount(q * e2) && fits_amount(r * e2)),
        ;
        if products_fit(total, e1, duration) && products_fit(total, e2, duration) {
            lemma_mul_inequality(e1, e2, total);
            lemma_mul_is_commutative(total, e1);
            lemma_mul_is_commutative(total, e2);
            lemma_div_is_ordered(total * e1, total * e2, duration);
        }
    }
}

/// The claimable amount of a non-negative total lies between nothing and the total.
pub proof fn lemma_claimable_within_total(total: int, start: int, now: int, duration: int)
    requires
        total >= 0,
        duration >= 0,
    ensures
        0 <= claimable_balance(total, start, now, duration) <= total,
{
    if duration > 0 && start < now && now - start < duration {
        lemma_linear_bounds(total, now - start, duration);
    }
}

} // verus!
