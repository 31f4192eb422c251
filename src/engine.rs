use std::collections::VecDeque;
use vstd::prelude::*;

use crate::halving::{base_issuance, base_of};
use crate::params::{PolicyParameters, RewardSchedule, MULTIPLIER_ONE, SPEND_PER_BLOCK};
use crate::throttle::{
    apply_multiplier, lemma_spend_sum_bound, smoothed_next, smoothed_spend_next, spend_sum,
    throttle_multiplier, throttled, windowed_spend,
};

verus! {

/// What the engine's rolling state stands for.
pub struct EngineStateView {
    /// Cumulative issuance so far.
    pub total_minted: nat,
    /// Spend figures of the most recent blocks, oldest first.
    pub recent_spend: Seq<u64>,
    /// Smoothed windowed spend; zero until something was observed.
    pub smoothed_spend: nat,
}

/// The increment actually minted: nothing once `total` has reached `cap`,
/// otherwise `raw` clamped so that the total does not pass the cap.
pub open spec fn capped_increment(total: nat, cap: nat, raw: int) -> nat {
    if total >= cap {
        0
    } else if raw <= cap - total {
        raw as nat
    } else {
        (cap - total) as nat
    }
}

/// The window after recording `spend`: appended at the back, and the oldest
/// entry dropped if the window then holds more than `limit` entries.
pub open spec fn window_next(window: Seq<u64>, limit: nat, spend: u64) -> Seq<u64> {
    let pushed = window.push(spend);
    if pushed.len() > limit {
        pushed.drop_first()
    } else {
        pushed
    }
}

impl EngineStateView {
    /// The smoothed spend that a call computes and stores.
    pub open spec fn smoothed_after(self) -> nat {
        smoothed_next(self.smoothed_spend, spend_sum(self.recent_spend))
    }

    /// The amount that a call at `height` mints from this state.
    pub open spec fn issuance(
        self,
        height: u64,
        schedule: RewardSchedule,
        policy: PolicyParameters,
    ) -> nat {
        capped_increment(
            self.total_minted,
            policy.supply_cap as nat,
            throttled(base_of(schedule, height), policy, self.smoothed_after()),
        )
    }

    /// The state after a call at `height`. The spend window and the smoothed
    /// spend advance on every call, also once the cap has been reached.
    pub open spec fn step(
        self,
        height: u64,
        schedule: RewardSchedule,
        policy: PolicyParameters,
    ) -> EngineStateView {
        EngineStateView {
            total_minted: self.total_minted + self.issuance(height, schedule, policy),
            recent_spend: window_next(
                self.recent_spend,
                policy.throttle_window as nat,
                SPEND_PER_BLOCK,
            ),
            smoothed_spend: self.smoothed_after(),
        }
    }

    /// The state after one call for each height of `heights`, in order.
    pub open spec fn run(
        self,
        heights: Seq<u64>,
        schedule: RewardSchedule,
        policy: PolicyParameters,
    ) -> EngineStateView
        decreases heights.len(),
    {
        if heights.len() == 0 {
            self
        } else {
            self.run(heights.drop_last(), schedule, policy).step(heights.last(), schedule, policy)
        }
    }

    /// What the engine keeps true of its state: every recorded spend figure is
    /// the per-block figure or less, and the smoothed spend is no more than a
    /// full window of those figures.
    pub open spec fn inv(self) -> bool {
        &&& forall|i: int| 0 <= i < self.recent_spend.len() ==> self.recent_spend[i] <= SPEND_PER_BLOCK
        &&& self.smoothed_spend <= self.recent_spend.len() * SPEND_PER_BLOCK
    }
}

/// The rolling state of one run: cumulative issuance, the spend window and the
/// smoothed spend. Only the engine changes it.
pub struct EngineState {
    total_minted: u64,
    recent_spend: VecDeque<u64>,
    smoothed_spend: u128,
}

impl View for EngineState {
    type V = EngineStateView;

    closed spec fn view(&self) -> EngineStateView {
        EngineStateView {
            total_minted: self.total_minted as nat,
            recent_spend: self.recent_spend@,
            smoothed_spend: self.smoothed_spend as nat,
        }
    }
}

impl EngineState {
    /// The state at the start of a run: nothing minted, an empty window and no
    /// smoothed spend yet.
    pub fn new() -> (state: EngineState)
        ensures
            state@.total_minted == 0,
            state@.recent_spend == Seq::<u64>::empty(),
            state@.smoothed_spend == 0,
            state@.inv(),
    {
        EngineState { total_minted: 0, recent_spend: VecDeque::new(), smoothed_spend: 0 }
    }

    /// Computes the issuance of the block at `height` and advances the state.
    ///
    /// Calls on one state are meant to come one block after another, starting
    /// at the activation height; the spend window assumes exactly one block
    /// per call. Once the cap has been reached a call mints nothing, but the
    /// spend window and the smoothed spend still advance, so that the throttle
    /// keeps track of the blocks that went by.
    ///
    /// The issuance is the base times the exact throttle multiplier, rounded
    /// down once. The smoothed spend is kept in whole units and rounded down
    /// at every step (see `smoothed_next`).
    pub fn evaluate(
        &mut self,
        height: u64,
        schedule: &RewardSchedule,
        policy: &PolicyParameters,
    ) -> (issuance: u64)
        requires
            schedule.wf(),
            policy.wf(),
            old(self)@.inv(),
            height >= schedule.activation_height,
        ensures
            issuance == old(self)@.issuance(height, *schedule, *policy),
            final(self)@ == old(self)@.step(height, *schedule, *policy),
            final(self)@.inv(),
            final(self)@.total_minted == old(self)@.total_minted + issuance,
            old(self)@.total_minted <= policy.supply_cap
                ==> final(self)@.total_minted <= policy.supply_cap,
            old(self)@.total_minted >= policy.supply_cap ==> issuance == 0
                && final(self)@.total_minted == old(self)@.total_minted,
            final(self)@.recent_spend == window_next(
                old(self)@.recent_spend,
                policy.throttle_window as nat,
                SPEND_PER_BLOCK,
            ),
            old(self)@.recent_spend.len() <= policy.throttle_window
                ==> final(self)@.recent_spend.len() <= policy.throttle_window,
            old(self)@.smoothed_spend == 0
                ==> final(self)@.smoothed_spend == spend_sum(old(self)@.recent_spend),
    {
        let ghost before = self@;
        let base = base_issuance(schedule, height);

        let windowed = windowed_spend(&self.recent_spend);
        proof {
            lemma_spend_sum_bound(before.recent_spend, SPEND_PER_BLOCK);
            vstd::std_specs::vecdeque::axiom_spec_len(&self.recent_spend);
        }
        let smoothed = smoothed_spend_next(self.smoothed_spend, windowed);
        self.smoothed_spend = smoothed;

        let m = throttle_multiplier(policy, smoothed);
        assert(MULTIPLIER_ONE * policy.throttle_target <= MULTIPLIER_ONE * u64::MAX) by (
        nonlinear_arith)
            requires
                policy.throttle_target <= u64::MAX,
        ;
        let denominator: u128 = MULTIPLIER_ONE as u128 * policy.throttle_target as u128;
        let raw = apply_multiplier(base, m, denominator);
        let issuance: u64 = if self.total_minted >= policy.supply_cap {
            0
        } else if raw <= policy.supply_cap - self.total_minted {
            raw
        } else {
            policy.supply_cap - self.total_minted
        };
        self.total_minted = self.total_minted + issuance;

        self.recent_spend.push_back(SPEND_PER_BLOCK);
        if self.recent_spend.len() as u64 > policy.throttle_window {
            self.recent_spend.pop_front();
        }
        proof {
            let after = self@;
            assert(after.recent_spend == window_next(
                before.recent_spend,
                policy.throttle_window as nat,
                SPEND_PER_BLOCK,
            ));
            assert(after.recent_spend.len() >= before.recent_spend.len());
        }
        issuance
    }

    /// Cumulative issuance so far.
    pub fn total_minted(&self) -> (total: u64)
        ensures
            total == self@.total_minted,
    {
        self.total_minted
    }

    /// The smoothed windowed spend; zero until something was observed.
    pub fn smoothed_spend(&self) -> (smoothed: u128)
        ensures
            smoothed == self@.smoothed_spend,
    {
        self.smoothed_spend
    }

    /// Number of spend figures in the window.
    pub fn window_len(&self) -> (len: usize)
        ensures
            len == self@.recent_spend.len(),
    {
        self.recent_spend.len()
    }
}

impl Default for EngineState {
    fn default() -> (state: EngineState)
        ensures
            state@.total_minted == 0,
            state@.recent_spend == Seq::<u64>::empty(),
            state@.smoothed_spend == 0,
            state@.inv(),
    {
        EngineState::new()
    }
}

} // verus!
