//! The shot-power meter: a clamped accumulator driven by held keys. The
//! power-bar display that mirrors it is engine-side; only the accumulation
//! rule lives here.

use vstd::prelude::*;

use crate::stick::ShotPower;

verus! {

/// One tick of the meter: held "increase" adds a hundredth, held
/// "decrease" subtracts one — increase applied first, then decrease — and
/// the result is clamped to the meter's range. The value never decays on
/// its own.
pub open spec fn power_step(p: int, increase: bool, decrease: bool) -> int {
    let raised = if increase {
        p + 1
    } else {
        p
    };
    let lowered = if decrease {
        raised - 1
    } else {
        raised
    };
    if lowered < 0 {
        0
    } else if lowered > 100 {
        100
    } else {
        lowered
    }
}

/// The meter after `n` ticks with the same keys held.
pub open spec fn power_after(p: int, increase: bool, decrease: bool, n: nat) -> int
    decreases n,
{
    if n == 0 {
        p
    } else {
        power_step(power_after(p, increase, decrease, (n - 1) as nat), increase, decrease)
    }
}

/// Applies one tick of held input to the meter. The bar that displays the
/// reading is drawn engine-side from the value left here.
pub fn update_ui(shot_power: &mut ShotPower, increase_held: bool, decrease_held: bool)
    requires
        old(shot_power).wf(),
    ensures
        final(shot_power).0 == power_step(old(shot_power).0 as int, increase_held, decrease_held),
        final(shot_power).wf(),
{
    let mut value: i32 = shot_power.0 as i32;
    if increase_held {
        value = value + 1;
    }
    if decrease_held {
        value = value - 1;
    }
    if value < 0 {
        value = 0;
    }
    if value > 100 {
        value = 100;
    }
    shot_power.0 = value as u8;
}

/// Holding "increase" for `n` ticks raises the meter from `v0` to
/// `v0 + n`, capped at full.
pub proof fn lemma_power_increase_held(v0: int, n: nat)
    requires
        0 <= v0 <= 100,
    ensures
        power_after(v0, true, false, n) == if v0 + n <= 100 {
            v0 + n
        } else {
            100int
        },
    decreases n,
{
    if n > 0 {
        lemma_power_increase_held(v0, (n - 1) as nat);
    }
}

/// Holding "decrease" for `n` ticks lowers the meter from `v0` to
/// `v0 - n`, floored at empty.
pub proof fn lemma_power_decrease_held(v0: int, n: nat)
    requires
        0 <= v0 <= 100,
    ensures
        power_after(v0, false, true, n) == if v0 - n >= 0 {
            v0 - n
        } else {
            0int
        },
    decreases n,
{
    if n > 0 {
        lemma_power_decrease_held(v0, (n - 1) as nat);
    }
}

/// Holding both keys at once nets to no change, however long: the increase
/// and the decrease cancel within each tick, and the meter stays in range.
pub proof fn lemma_power_both_held(v0: int, n: nat)
    requires
        0 <= v0 <= 100,
    ensures
        power_after(v0, true, true, n) == v0,
    decreases n,
{
    if n > 0 {
        lemma_power_both_held(v0, (n - 1) as nat);
    }
}

/// One tick of the meter, from any reading in range under any input,
/// stays in range.
pub proof fn lemma_power_step_in_range(p: int, increase: bool, decrease: bool)
    requires
        0 <= p <= 100,
    ensures
        0 <= power_step(p, increase, decrease) <= 100,
{
}

} // verus!
