use std::collections::VecDeque;

use dmt_cash_ghost::engine::EngineState;
use dmt_cash_ghost::halving::base_issuance;
use dmt_cash_ghost::params::{PolicyParameters, RewardSchedule, MULTIPLIER_ONE, SPEND_PER_BLOCK};
use dmt_cash_ghost::throttle::{
    apply_multiplier, smoothed_spend_next, throttle_multiplier, windowed_spend,
};

fn mainnet_schedule() -> RewardSchedule {
    RewardSchedule { activation_height: 929929, initial_per_block: 5_000_000, halving_interval: 210_000 }
}

fn mainnet_policy() -> PolicyParameters {
    PolicyParameters {
        supply_cap: 2_100_000_000_000,
        throttle_window: 2016,
        throttle_target: 100_000_000,
        throttle_beta: MULTIPLIER_ONE / 2,
        throttle_floor: MULTIPLIER_ONE / 4,
    }
}

fn neutral_policy(supply_cap: u64, throttle_window: u64) -> PolicyParameters {
    PolicyParameters {
        supply_cap,
        throttle_window,
        throttle_target: 1,
        throttle_beta: 0,
        throttle_floor: MULTIPLIER_ONE,
    }
}

#[test]
fn test_halving() {
    let reward = mainnet_schedule();
    let policy = neutral_policy(u64::MAX, 1);
    let mut state = EngineState::default();

    assert_eq!(state.evaluate(929929, &reward, &policy), 5_000_000);
    assert_eq!(state.evaluate(929929 + 210_000, &reward, &policy), 2_500_000);
}

#[test]
fn halving_with_floor_of_one_ignores_spend() {
    let reward = mainnet_schedule();
    let mut policy = mainnet_policy();
    policy.throttle_floor = MULTIPLIER_ONE;
    let mut state = EngineState::new();
    for h in 0..10u64 {
        assert_eq!(state.evaluate(929929 + h, &reward, &policy), 5_000_000);
    }
    assert_eq!(state.evaluate(929929 + 210_000, &reward, &policy), 2_500_000);
    assert_eq!(state.evaluate(929929 + 420_000, &reward, &policy), 1_250_000);
}

#[test]
fn end_to_end_mainnet_parameters() {
    let reward = mainnet_schedule();
    let policy = mainnet_policy();
    let mut state = EngineState::new();

    assert_eq!(state.evaluate(929929, &reward, &policy), 5_000_000);
    assert_eq!(state.total_minted(), 5_000_000);
    assert_eq!(state.smoothed_spend(), 0);
    assert_eq!(state.window_len(), 1);

    // window sum 50_000_000 on a cold start: multiplier 1 - 0.5 * 0.5 = 0.75
    assert_eq!(state.evaluate(929930, &reward, &policy), 3_750_000);
    assert_eq!(state.smoothed_spend(), 50_000_000);
    // 0.9 * 50_000_000 + 0.1 * 100_000_000 = 55_000_000: multiplier 0.725
    assert_eq!(state.evaluate(929931, &reward, &policy), 3_625_000);
    assert_eq!(state.smoothed_spend(), 55_000_000);
    assert_eq!(state.total_minted(), 5_000_000 + 3_750_000 + 3_625_000);

    let mut last = 0u64;
    for h in 929932..=929929 + 2016 {
        last = state.evaluate(h, &reward, &policy);
    }
    assert_eq!(state.window_len(), 2016);
    assert!(last < 5_000_000);
    // deep into the floor: 0.25 of the base
    assert_eq!(last, 1_250_000);
    assert_eq!(state.evaluate(929929 + 2017, &reward, &policy), 1_250_000);
    assert_eq!(state.window_len(), 2016);
}

#[test]
fn cap_clamps_then_stops_issuance() {
    let reward = mainnet_schedule();
    let policy = neutral_policy(7_000_000, 5);
    let mut state = EngineState::new();

    assert_eq!(state.evaluate(929929, &reward, &policy), 5_000_000);
    assert_eq!(state.evaluate(929930, &reward, &policy), 2_000_000);
    assert_eq!(state.total_minted(), 7_000_000);
    assert_eq!(state.evaluate(929931, &reward, &policy), 0);
    assert_eq!(state.evaluate(929932, &reward, &policy), 0);
    assert_eq!(state.total_minted(), 7_000_000);
    // bookkeeping continues after the cap
    assert_eq!(state.window_len(), 4);
    assert_eq!(state.smoothed_spend(), 64_500_000);
}

#[test]
fn total_never_decreases_and_stays_under_cap() {
    let reward = RewardSchedule { activation_height: 0, initial_per_block: 1000, halving_interval: 7 };
    let policy = PolicyParameters {
        supply_cap: 12_345,
        throttle_window: 4,
        throttle_target: 300_000_000,
        throttle_beta: 300_000,
        throttle_floor: 100_000,
    };
    let mut state = EngineState::new();
    let mut prev = 0u64;
    for h in 0..200u64 {
        let issued = state.evaluate(h, &reward, &policy);
        assert_eq!(state.total_minted(), prev + issued);
        assert!(state.total_minted() <= policy.supply_cap);
        prev = state.total_minted();
    }
}

#[test]
fn window_holds_at_most_the_configured_entries() {
    let reward = mainnet_schedule();
    let policy = neutral_policy(u64::MAX, 3);
    let mut state = EngineState::new();
    for h in 0..10u64 {
        state.evaluate(929929 + h, &reward, &policy);
        assert!(state.window_len() <= 3);
    }
    assert_eq!(state.window_len(), 3);
}

#[test]
fn cold_start_takes_window_sum() {
    assert_eq!(smoothed_spend_next(0, 123_456), 123_456);
    assert_eq!(smoothed_spend_next(0, 0), 0);
    assert_eq!(smoothed_spend_next(50_000_000, 100_000_000), 55_000_000);
    assert_eq!(smoothed_spend_next(10, 0), 9);
    assert_eq!(smoothed_spend_next(1, 0), 0);
}

#[test]
fn base_issuance_halves_per_epoch_and_saturates() {
    let reward = mainnet_schedule();
    assert_eq!(base_issuance(&reward, 929929), 5_000_000);
    assert_eq!(base_issuance(&reward, 929929 + 209_999), 5_000_000);
    assert_eq!(base_issuance(&reward, 929929 + 210_000), 2_500_000);
    assert_eq!(base_issuance(&reward, 929929 + 3 * 210_000), 625_000);
    let wide = RewardSchedule { activation_height: 0, initial_per_block: u64::MAX, halving_interval: 1 };
    assert_eq!(base_issuance(&wide, 63), 1);
    assert_eq!(base_issuance(&wide, 64), 0);
    assert_eq!(base_issuance(&wide, u64::MAX), 0);
}

#[test]
fn multiplier_values_and_floor() {
    let policy = mainnet_policy();
    // numerators over MULTIPLIER_ONE * target = 100_000_000_000_000
    assert_eq!(throttle_multiplier(&policy, 0), 100_000_000_000_000);
    assert_eq!(throttle_multiplier(&policy, 50_000_000), 75_000_000_000_000);
    assert_eq!(throttle_multiplier(&policy, 140_000_000), 30_000_000_000_000);
    assert_eq!(throttle_multiplier(&policy, 150_000_000), 25_000_000_000_000);
    assert_eq!(throttle_multiplier(&policy, 1_000_000_000), 25_000_000_000_000);
    assert_eq!(throttle_multiplier(&policy, u128::MAX), 25_000_000_000_000);
    // a penalty below one part per million is kept exactly
    assert_eq!(throttle_multiplier(&policy, 1), 100_000_000_000_000 - 500_000);
    let zero_floor = PolicyParameters { throttle_floor: 0, ..policy };
    assert_eq!(throttle_multiplier(&zero_floor, u128::MAX), 0);
    assert_eq!(throttle_multiplier(&zero_floor, 200_000_000), 0);
}

#[test]
fn multiplier_scales_base() {
    assert_eq!(apply_multiplier(5_000_000, 750_000, 1_000_000), 3_750_000);
    assert_eq!(apply_multiplier(3, 1, 2), 1);
    let widest = MULTIPLIER_ONE as u128 * u64::MAX as u128;
    assert_eq!(apply_multiplier(u64::MAX, widest, widest), u64::MAX);
    assert_eq!(apply_multiplier(u64::MAX, widest - 1, widest), u64::MAX - 1);
    assert_eq!(apply_multiplier(u64::MAX, 0, 1), 0);
    assert_eq!(apply_multiplier(u64::MAX, 1, 3), u64::MAX / 3);
    assert_eq!(apply_multiplier(u64::MAX, 1 << 63, 1 << 64), (1 << 63) - 1);
}

#[test]
fn issuance_rounds_down_once() {
    let reward = mainnet_schedule();
    let policy = PolicyParameters {
        supply_cap: u64::MAX,
        throttle_window: 2016,
        throttle_target: 300_000_000,
        throttle_beta: MULTIPLIER_ONE / 2,
        throttle_floor: 0,
    };
    let mut state = EngineState::new();
    assert_eq!(state.evaluate(929929, &reward, &policy), 5_000_000);
    // cold start on a window sum of 50_000_000: 5_000_000 * (1 - 0.5 / 6)
    assert_eq!(state.evaluate(929930, &reward, &policy), 4_583_333);
}

#[test]
fn mainnet_run_matches_block_929935() {
    let reward = mainnet_schedule();
    let policy = mainnet_policy();
    let mut state = EngineState::new();
    let mut issued = Vec::new();
    for h in 929929..=929935u64 {
        issued.push(state.evaluate(h, &reward, &policy));
    }
    assert_eq!(state.smoothed_spend(), 115_720_500);
    // 5_000_000 * (1 - 0.5 * 1.157205) = 2_106_987.5
    assert_eq!(issued[6], 2_106_987);
}

#[test]
fn window_sum_adds_entries() {
    let mut window = VecDeque::new();
    assert_eq!(windowed_spend(&window), 0);
    window.push_back(u64::MAX);
    window.push_back(u64::MAX);
    window.push_back(SPEND_PER_BLOCK);
    assert_eq!(windowed_spend(&window), 2 * (u64::MAX as u128) + SPEND_PER_BLOCK as u128);
}
