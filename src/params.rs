use vstd::prelude::*;

verus! {

/// Fixed-point scale of the throttle's coefficient and floor: a value `v`
/// stands for `v / MULTIPLIER_ONE` (parts per million), so `MULTIPLIER_ONE`
/// itself stands for exactly one.
pub const MULTIPLIER_ONE: u64 = 1_000_000;

/// The spend figure recorded for every block. Real chain data would supply a
/// per-block figure; here every block counts as spending this much.
pub const SPEND_PER_BLOCK: u64 = 50_000_000;

/// The halving schedule, fixed for a whole run.
#[derive(Clone, Copy, Debug, PartialEq, Eq)]
pub struct RewardSchedule {
    /// First height that the schedule governs.
    pub activation_height: u64,
    /// Issuance at the activation height, before any halving.
    pub initial_per_block: u64,
    /// Number of blocks in one halving epoch.
    pub halving_interval: u64,
}

impl RewardSchedule {
    pub open spec fn wf(&self) -> bool {
        self.halving_interval > 0
    }
}

/// Cap and throttle parameters, fixed for a whole run.
///
/// The throttle's coefficient and floor are fixed-point numbers on the scale
/// `MULTIPLIER_ONE`: a coefficient of one half is `MULTIPLIER_ONE / 2`.
#[derive(Clone, Copy, Debug, PartialEq, Eq)]
pub struct PolicyParameters {
    /// Largest cumulative issuance ever allowed.
    pub supply_cap: u64,
    /// Number of most recent blocks whose spend figures are summed.
    pub throttle_window: u64,
    /// Spend level against which the smoothed spend is measured.
    pub throttle_target: u64,
    /// Sensitivity of the multiplier to spend, scaled by `MULTIPLIER_ONE`.
    pub throttle_beta: u64,
    /// Smallest multiplier allowed, scaled by `MULTIPLIER_ONE`.
    pub throttle_floor: u64,
}

impl PolicyParameters {
    pub open spec fn wf(&self) -> bool {
        &&& self.throttle_window > 0
        &&& self.throttle_target > 0
        &&& self.throttle_floor <= MULTIPLIER_ONE
    }
}

} // verus!
