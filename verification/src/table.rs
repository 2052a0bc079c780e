//! One tick of the gameplay core, in the required order: the table state
//! is derived first, the pocketing rule runs before the stick controller
//! re-acquires the cue ball (so a just-removed ball is never targeted),
//! and the power meter and stick only act while the table is settled.

use vstd::prelude::*;

use crate::balls::Ball;
use crate::balls::BallsMovingState;
use crate::balls::ScoreEvent;
use crate::balls::all_settled;
use crate::balls::check_ball_moving;
use crate::balls::check_scored_ball;
use crate::balls::score_events;
use crate::balls::surviving;
use crate::geom::Vec3i;
use crate::stick::IndicatorUpdate;
use crate::stick::RayHit;
use crate::stick::ShotImpulse;
use crate::stick::ShotPower;
use crate::stick::has_cue_ball;
use crate::stick::impulse_vector;
use crate::stick::is_first_cue;
use crate::stick::shoot_stick;
use crate::stick::show_current_shot_position;
use crate::ui::power_step;
use crate::ui::update_ui;

verus! {

/// The inputs the engine polls for one tick.
#[derive(Debug, Clone, Copy, PartialEq, Eq, Structural)]
pub struct TickInput {
    /// The power-raising key is held.
    pub increase_held: bool,
    /// The power-lowering key is held.
    pub decrease_held: bool,
    /// The shot trigger is held.
    pub mouse_pressed: bool,
    /// A pointer ray exists in world space.
    pub has_cursor_ray: bool,
    /// The pointer ray's intersection with the cue ball, if any.
    pub cue_hit: Option<RayHit>,
}

/// What one tick decided: the derived table state, the pocketing records,
/// and the actions for the engine to carry out.
#[derive(Debug)]
pub struct TickOutput {
    pub state: BallsMovingState,
    pub scored: Vec<ScoreEvent>,
    pub indicator: IndicatorUpdate,
    pub shot: Option<ShotImpulse>,
}

/// Runs one tick of the core. The state machine is evaluated on the
/// registry as the tick begins; the pocketing rule then prunes the
/// registry; the power meter accumulates only while the table is settled;
/// and the stick controller aims and shoots against the pruned registry
/// with the fresh meter reading.
pub fn tick(balls: &mut Vec<Ball>, shot_power: &mut ShotPower, input: TickInput) -> (out:
    TickOutput)
    requires
        old(shot_power).wf(),
        input.cue_hit matches Some(hit) ==> hit.wf(),
    ensures
        out.state == BallsMovingState::NotMoving <==> all_settled(old(balls)@),
        final(balls)@ == surviving(old(balls)@),
        out.scored@ == score_events(old(balls)@),
        final(shot_power).wf(),
        all_settled(old(balls)@) ==> final(shot_power).0 == power_step(
            old(shot_power).0 as int,
            input.increase_held,
            input.decrease_held,
        ),
        !all_settled(old(balls)@) ==> *final(shot_power) == *old(shot_power),
        out.shot is Some <==> all_settled(old(balls)@) && input.mouse_pressed && has_cue_ball(
            surviving(old(balls)@),
        ) && input.cue_hit is Some,
        out.shot matches Some(s) ==> {
            &&& is_first_cue(surviving(old(balls)@), s.ball as int)
            &&& input.cue_hit matches Some(hit) && s.impulse == impulse_vector(
                final(shot_power).0 as int,
                hit.normal,
            ) && s.point == hit.position
            &&& s.center == surviving(old(balls)@)[s.ball as int].position
        },
        out.state == BallsMovingState::Moving ==> out.indicator == IndicatorUpdate::Hide,
        out.state == BallsMovingState::NotMoving && !input.has_cursor_ray ==> out.indicator
            == IndicatorUpdate::Keep,
        out.state == BallsMovingState::NotMoving && input.has_cursor_ray && !has_cue_ball(
            surviving(old(balls)@),
        ) ==> out.indicator == IndicatorUpdate::Keep,
        out.state == BallsMovingState::NotMoving && input.has_cursor_ray && has_cue_ball(
            surviving(old(balls)@),
        ) && input.cue_hit is None ==> out.indicator == IndicatorUpdate::Hide,
        out.state == BallsMovingState::NotMoving && input.has_cursor_ray && has_cue_ball(
            surviving(old(balls)@),
        ) ==> (input.cue_hit matches Some(hit) ==> out.indicator == (IndicatorUpdate::Show {
            position: hit.position,
            direction: Vec3i {
                x: (-hit.normal.x) as i64,
                y: (-hit.normal.y) as i64,
                z: (-hit.normal.z) as i64,
            },
        })),
{
    let state = check_ball_moving(balls);
    let scored = check_scored_ball(balls);
    if matches!(state, BallsMovingState::NotMoving) {
        update_ui(shot_power, input.increase_held, input.decrease_held);
    }
    let indicator = show_current_shot_position(state, balls, input.has_cursor_ray, input.cue_hit);
    let shot = shoot_stick(state, input.mouse_pressed, shot_power, balls, input.cue_hit);
    TickOutput { state, scored, indicator, shot }
}

} // verus!
