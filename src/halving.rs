use vstd::arithmetic::power2::{lemma2_to64_rest, lemma_pow2_strictly_increases, pow2};
use vstd::bits::lemma_u64_shr_is_div;
use vstd::prelude::*;

use crate::params::RewardSchedule;

verus! {

/// Number of whole halving epochs between the activation height and `height`.
pub open spec fn epochs_elapsed(schedule: RewardSchedule, height: u64) -> nat {
    ((height - schedule.activation_height) / (schedule.halving_interval as int)) as nat
}

/// Issuance before throttling: the initial amount halved once per elapsed epoch,
/// rounding down each time (which is one division by a power of two).
pub open spec fn base_of(schedule: RewardSchedule, height: u64) -> nat {
    schedule.initial_per_block as nat / pow2(epochs_elapsed(schedule, height))
}

/// The halved base issuance at `height`; it reaches zero once the number of
/// elapsed epochs is the bit width of the amount or more.
pub fn base_issuance(schedule: &RewardSchedule, height: u64) -> (base: u64)
    requires
        schedule.wf(),
        height >= schedule.activation_height,
    ensures
        base == base_of(*schedule, height),
{
    let epochs: u64 = (height - schedule.activation_height) / schedule.halving_interval;
    if epochs >= 64 {
        proof {
            lemma2_to64_rest();
            if epochs > 64 {
                lemma_pow2_strictly_increases(64, epochs as nat);
            }
            assert(schedule.initial_per_block as nat / pow2(epochs as nat) == 0) by (nonlinear_arith)
                requires
                    (schedule.initial_per_block as nat) < pow2(epochs as nat),
            ;
        }
        0
    } else {
        proof {
            lemma_u64_shr_is_div(schedule.initial_per_block, epochs);
        }
        schedule.initial_per_block >> epochs
    }
}

} // verus!
