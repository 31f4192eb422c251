use vstd::arithmetic::div_mod::lemma_div_multiples_vanish;
use vstd::arithmetic::power2::lemma2_to64;
use vstd::prelude::*;

use crate::engine::EngineStateView;
use crate::halving::{base_of, epochs_elapsed};
use crate::params::{PolicyParameters, RewardSchedule, MULTIPLIER_ONE};
use crate::throttle::{multiplier_denominator, multiplier_numerator, throttled};

verus! {

/// One step more of a run is the step at the next height.
proof fn lemma_run_prefix(
    s: EngineStateView,
    heights: Seq<u64>,
    i: int,
    schedule: RewardSchedule,
    policy: PolicyParameters,
)
    requires
        0 <= i < heights.len(),
    ensures
        s.run(heights.take(i + 1), schedule, policy) == s.run(heights.take(i), schedule, policy).step(
            heights[i],
            schedule,
            policy,
        ),
{
    assert(heights.take(i + 1).drop_last() == heights.take(i));
}

/// With a throttle that cannot reduce issuance (a zero coefficient, or a floor
/// of one) and room left under the cap, a call at the activation height mints
/// exactly the initial amount, and a call one halving interval later mints
/// exactly half of it, rounded down.
pub proof fn lemma_halving(
    s: EngineStateView,
    schedule: RewardSchedule,
    policy: PolicyParameters,
)
    requires
        schedule.wf(),
        policy.wf(),
        policy.throttle_beta == 0 || policy.throttle_floor == MULTIPLIER_ONE,
        s.total_minted + schedule.initial_per_block <= policy.supply_cap,
    ensures
        s.issuance(schedule.activation_height, schedule, policy) == schedule.initial_per_block,
        schedule.activation_height + schedule.halving_interval <= u64::MAX ==> s.issuance(
            (schedule.activation_height + schedule.halving_interval) as u64,
            schedule,
            policy,
        ) == schedule.initial_per_block / 2,
{
    let smoothed = s.smoothed_after();
    lemma_multiplier_bounds(policy, smoothed);
    if policy.throttle_floor == MULTIPLIER_ONE {
        assert(multiplier_numerator(policy, smoothed) == multiplier_denominator(policy));
    }
    assert forall|base: nat| #[trigger] throttled(base, policy, smoothed) == base by {
        lemma_div_multiples_vanish(base as int, multiplier_denominator(policy));
        assert(base * multiplier_denominator(policy) == multiplier_denominator(policy) * base);
    }
    lemma2_to64();
    assert(epochs_elapsed(schedule, schedule.activation_height) == 0);
    let later = schedule.activation_height + schedule.halving_interval;
    if later <= u64::MAX {
        let d = schedule.halving_interval as int;
        assert(d / d == 1) by (nonlinear_arith)
            requires
                d > 0,
        ;
        assert(later - schedule.activation_height == d);
        assert(epochs_elapsed(schedule, later as u64) == 1);
    }
}

/// For every valid policy and every smoothed spend, the multiplier is at least
/// the floor, so throttled issuance is never negative; with a non-negative
/// coefficient the multiplier is also at most one, so throttling never
/// raises issuance above the base.
pub proof fn lemma_multiplier_bounds(policy: PolicyParameters, smoothed: nat)
    requires
        policy.wf(),
    ensures
        policy.throttle_floor * policy.throttle_target <= multiplier_numerator(policy, smoothed)
            <= multiplier_denominator(policy),
        forall|base: nat| 0 <= #[trigger] throttled(base, policy, smoothed) <= base,
{
    let n = multiplier_numerator(policy, smoothed);
    let d = multiplier_denominator(policy);
    assert(policy.throttle_beta * smoothed >= 0) by (nonlinear_arith);
    assert(policy.throttle_floor * policy.throttle_target <= d) by (nonlinear_arith)
        requires
            policy.throttle_floor <= MULTIPLIER_ONE,
            d == MULTIPLIER_ONE * policy.throttle_target,
    ;
    assert(0 <= n) by (nonlinear_arith)
        requires
            policy.throttle_floor * policy.throttle_target <= n,
    ;
    assert forall|base: nat| 0 <= #[trigger] throttled(base, policy, smoothed) <= base by {
        assert(0 <= base * n <= base * d) by (nonlinear_arith)
            requires
                0 <= n <= d,
        ;
        assert(0 <= (base * n) / d <= base) by (nonlinear_arith)
            requires
                0 <= base * n <= base * d,
                d > 0,
        ;
    }
}

/// Over any run that starts within the cap, cumulative issuance stays within
/// the cap at the end.
proof fn lemma_run_within_cap(
    s: EngineStateView,
    heights: Seq<u64>,
    schedule: RewardSchedule,
    policy: PolicyParameters,
)
    requires
        policy.wf(),
        s.total_minted <= policy.supply_cap,
    ensures
        s.total_minted <= s.run(heights, schedule, policy).total_minted <= policy.supply_cap,
        s.total_minted == policy.supply_cap ==> s.run(heights, schedule, policy).total_minted
            == policy.supply_cap,
    decreases heights.len(),
{
    if heights.len() > 0 {
        let before = s.run(heights.drop_last(), schedule, policy);
        lemma_run_within_cap(s, heights.drop_last(), schedule, policy);
        lemma_multiplier_bounds(policy, before.smoothed_after());
        assert(throttled(base_of(schedule, heights.last()), policy, before.smoothed_after()) >= 0);
    }
}

/// Over any sequence of calls that starts within the cap, no call lowers the
/// cumulative issuance and none takes it past the cap; once the cap has been
/// reached, every later call mints nothing.
pub proof fn lemma_cap_monotonic(
    s: EngineStateView,
    heights: Seq<u64>,
    schedule: RewardSchedule,
    policy: PolicyParameters,
)
    requires
        policy.wf(),
        s.total_minted <= policy.supply_cap,
    ensures
        forall|i: int|
            0 <= i < heights.len() ==> #[trigger] s.run(heights.take(i), schedule, policy).total_minted
                <= s.run(heights.take(i + 1), schedule, policy).total_minted,
        forall|i: int|
            0 <= i <= heights.len() ==> #[trigger] s.run(heights.take(i), schedule, policy).total_minted
                <= policy.supply_cap,
        forall|i: int|
            0 <= i < heights.len() && #[trigger] s.run(heights.take(i), schedule, policy).total_minted
                == policy.supply_cap ==> s.run(heights.take(i), schedule, policy).issuance(
                heights[i],
                schedule,
                policy,
            ) == 0,
        s.total_minted == policy.supply_cap ==> forall|i: int|
            0 <= i < heights.len() ==> #[trigger] s.run(heights.take(i), schedule, policy).issuance(
                heights[i],
                schedule,
                policy,
            ) == 0,
{
    assert forall|i: int| 0 <= i <= heights.len() implies #[trigger] s.run(
        heights.take(i),
        schedule,
        policy,
    ).total_minted <= policy.supply_cap && (s.total_minted == policy.supply_cap ==> s.run(
        heights.take(i),
        schedule,
        policy,
    ).total_minted == policy.supply_cap) by {
        lemma_run_within_cap(s, heights.take(i), schedule, policy);
    }
    assert forall|i: int| 0 <= i < heights.len() implies #[trigger] s.run(
        heights.take(i),
        schedule,
        policy,
    ).total_minted <= s.run(heights.take(i + 1), schedule, policy).total_minted by {
        lemma_run_prefix(s, heights, i, schedule, policy);
    }
}

/// Over any sequence of calls that starts with no more than `throttle_window`
/// entries in the spend window, the window never holds more than that.
pub proof fn lemma_window_bounded(
    s: EngineStateView,
    heights: Seq<u64>,
    schedule: RewardSchedule,
    policy: PolicyParameters,
)
    requires
        s.recent_spend.len() <= policy.throttle_window,
    ensures
        forall|i: int|
            0 <= i <= heights.len() ==> #[trigger] s.run(
                heights.take(i),
                schedule,
                policy,
            ).recent_spend.len() <= policy.throttle_window,
{
    assert forall|i: int| 0 <= i <= heights.len() implies #[trigger] s.run(
        heights.take(i),
        schedule,
        policy,
    ).recent_spend.len() <= policy.throttle_window by {
        lemma_run_window(s, heights.take(i), schedule, policy);
    }
}

proof fn lemma_run_window(
    s: EngineStateView,
    heights: Seq<u64>,
    schedule: RewardSchedule,
    policy: PolicyParameters,
)
    requires
        s.recent_spend.len() <= policy.throttle_window,
    ensures
        s.run(heights, schedule, policy).recent_spend.len() <= policy.throttle_window,
    decreases heights.len(),
{
    if heights.len() > 0 {
        lemma_run_window(s, heights.drop_last(), schedule, policy);
    }
}

} // verus!
