//! Per-block issuance for a ledger whose policy combines a halving schedule, a
//! hard supply cap and a throttle that responds to recent spend.

pub mod engine;
pub mod halving;
pub mod laws;
pub mod params;
pub mod throttle;

pub use engine::{EngineState, EngineStateView};
pub use halving::base_issuance;
pub use params::{PolicyParameters, RewardSchedule, MULTIPLIER_ONE, SPEND_PER_BLOCK};
