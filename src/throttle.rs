use std::collections::VecDeque;
use vstd::arithmetic::div_mod::{lemma_fundamental_div_mod, lemma_hoist_over_denominator};
use vstd::prelude::*;

use crate::params::{PolicyParameters, MULTIPLIER_ONE};

verus! {

/// Sum of the spend figures in a window.
pub open spec fn spend_sum(s: Seq<u64>) -> nat
    decreases s.len(),
{
    if s.len() == 0 {
        0
    } else {
        spend_sum(s.drop_last()) + s.last() as nat
    }
}

/// A window whose entries are at most `bound` sums to at most `bound` per entry.
pub proof fn lemma_spend_sum_bound(s: Seq<u64>, bound: u64)
    requires
        forall|i: int| 0 <= i < s.len() ==> s[i] <= bound,
    ensures
        spend_sum(s) <= s.len() * bound,
    decreases s.len(),
{
    if s.len() > 0 {
        lemma_spend_sum_bound(s.drop_last(), bound);
        assert(s.len() * bound == (s.len() - 1) * bound + bound) by (nonlinear_arith);
    }
}

/// The exponentially smoothed spend after observing `windowed` (the current
/// window sum): 90% of the previous estimate plus 10% of the window sum, in
/// whole units rounded down at every step (the fraction is dropped, so the
/// estimate can trail the exact average by less than one unit per step, and
/// falls back to zero from a small estimate once spend stops). A previous estimate of zero means that nothing
/// was observed yet, and the window sum is taken as it is.
pub open spec fn smoothed_next(prev: nat, windowed: nat) -> nat {
    if prev == 0 {
        windowed
    } else {
        (9 * prev + windowed) / 10
    }
}

/// The throttle multiplier for a smoothed spend is the fraction
/// `multiplier_numerator / multiplier_denominator`: one less the coefficient
/// times the ratio of spend to target, but never below the floor. With the
/// coefficient and the floor on the scale `MULTIPLIER_ONE`, both sides are
/// brought over the common denominator `MULTIPLIER_ONE * throttle_target`, so
/// the fraction is exact.
pub open spec fn multiplier_numerator(policy: PolicyParameters, smoothed: nat) -> int {
    let reduced = MULTIPLIER_ONE * policy.throttle_target - policy.throttle_beta * smoothed;
    let lowest = policy.throttle_floor * policy.throttle_target;
    if reduced >= lowest {
        reduced
    } else {
        lowest
    }
}

pub open spec fn multiplier_denominator(policy: PolicyParameters) -> int {
    MULTIPLIER_ONE * policy.throttle_target
}

/// `base` times the throttle multiplier for `smoothed`, rounded down once.
pub open spec fn throttled(base: nat, policy: PolicyParameters, smoothed: nat) -> int {
    base * multiplier_numerator(policy, smoothed) / multiplier_denominator(policy)
}

/// Sum of the spend figures currently in the window.
pub fn windowed_spend(window: &VecDeque<u64>) -> (sum: u128)
    ensures
        sum == spend_sum(window@),
{
    let mut sum: u128 = 0;
    let mut i: usize = 0;
    let n = window.len();
    while i < n
        invariant
            n == window@.len(),
            i <= n,
            sum == spend_sum(window@.take(i as int)),
            sum <= i * (u64::MAX as int),
        decreases n - i,
    {
        assert(window@.take(i + 1).drop_last() == window@.take(i as int));
        sum = sum + window[i] as u128;
        i = i + 1;
    }
    assert(window@.take(n as int) == window@);
    sum
}

/// One smoothing step (see `smoothed_next`). The result lies between the
/// previous estimate and the window sum, or is the window sum on a cold start.
pub fn smoothed_spend_next(prev: u128, windowed: u128) -> (next: u128)
    requires
        9 * prev + windowed <= u128::MAX,
    ensures
        next == smoothed_next(prev as nat, windowed as nat),
        prev == 0 ==> next == windowed,
        next <= prev || next <= windowed,
{
    if prev == 0 {
        windowed
    } else {
        (9 * prev + windowed) / 10
    }
}

/// The numerator of the throttle multiplier for a smoothed spend (see
/// `multiplier_numerator`). The multiplier it stands for is never below the
/// policy's floor and, the coefficient being non-negative, never above one.
pub fn throttle_multiplier(policy: &PolicyParameters, smoothed: u128) -> (m: u128)
    requires
        policy.wf(),
    ensures
        m == multiplier_numerator(*policy, smoothed as nat),
        policy.throttle_floor * policy.throttle_target <= m <= multiplier_denominator(*policy),
{
    let target = policy.throttle_target as u128;
    let floor = policy.throttle_floor as u128;
    assert(MULTIPLIER_ONE * target <= 1_000_000 * u64::MAX) by (nonlinear_arith)
        requires
            target <= u64::MAX,
    ;
    assert(floor * target <= MULTIPLIER_ONE * target) by (nonlinear_arith)
        requires
            floor <= MULTIPLIER_ONE,
    ;
    let whole: u128 = MULTIPLIER_ONE as u128 * target;
    let lowest: u128 = floor * target;
    match (policy.throttle_beta as u128).checked_mul(smoothed) {
        Some(weighted) => {
            if weighted < whole - lowest {
                whole - weighted
            } else {
                lowest
            }
        },
        None => lowest,
    }
}

/// `base * numerator / denominator`, rounded down once. The product may need
/// more than 128 bits, so `base` is split into its high and low 32 bits and
/// the division is carried from the high part into the low part.
pub fn apply_multiplier(base: u64, numerator: u128, denominator: u128) -> (raw: u64)
    requires
        0 < denominator,
        numerator <= denominator,
        denominator <= MULTIPLIER_ONE * u64::MAX,
    ensures
        raw == (base * numerator) / (denominator as int),
        raw <= base,
{
    let half: u64 = 0x1_0000_0000;
    let high = (base / half) as u128;
    let low = (base % half) as u128;
    let k = half as u128;
    assert(high * numerator <= 0x1_0000_0000 * (MULTIPLIER_ONE * u64::MAX)) by (nonlinear_arith)
        requires
            high < 0x1_0000_0000,
            numerator <= MULTIPLIER_ONE * u64::MAX,
    ;
    let t1: u128 = high * numerator;
    let q1: u128 = t1 / denominator;
    let r1: u128 = t1 % denominator;
    assert(r1 * k <= 0x1_0000_0000 * (MULTIPLIER_ONE * u64::MAX)) by (nonlinear_arith)
        requires
            r1 < denominator,
            k == 0x1_0000_0000,
            denominator <= MULTIPLIER_ONE * u64::MAX,
    ;
    assert(low * numerator <= 0x1_0000_0000 * (MULTIPLIER_ONE * u64::MAX)) by (nonlinear_arith)
        requires
            low < 0x1_0000_0000,
            numerator <= MULTIPLIER_ONE * u64::MAX,
    ;
    let t2: u128 = r1 * k + low * numerator;
    proof {
        lemma_fundamental_div_mod(t1 as int, denominator as int);
        assert(base * numerator == (q1 * k) * denominator + t2) by (nonlinear_arith)
            requires
                base == high * k + low,
                t1 == high * numerator,
                t1 == denominator * q1 + r1,
                t2 == r1 * k + low * numerator,
        ;
        lemma_hoist_over_denominator(t2 as int, (q1 * k) as int, denominator as nat);
        assert(base * numerator <= base * denominator) by (nonlinear_arith)
            requires
                numerator <= denominator,
        ;
        assert((base * numerator) / (denominator as int) <= base) by (nonlinear_arith)
            requires
                base * numerator <= base * denominator,
                denominator > 0,
        ;
        assert(q1 * k <= base * numerator / (denominator as int)) by (nonlinear_arith)
            requires
                (base * numerator) / (denominator as int) == (t2 as int) / (denominator as int) + q1 * k,
                t2 >= 0,
                denominator > 0,
        ;
    }
    (q1 * k + t2 / denominator) as u64
}

} // verus!
