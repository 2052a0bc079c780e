//! The cue-stick controller: pointer-aim strategy. Every tick while the
//! table is settled, the engine casts the pointer ray against the cue ball
//! and hands the result in as plain values; this module decides where the
//! aim indicator goes and, on trigger, what impulse to apply.

use vstd::prelude::*;

use crate::balls::Ball;
use crate::balls::BallsMovingState;
use crate::balls::Side;
use crate::geom::Vec3i;

verus! {

/// Full-power strike speed, in world units.
pub const SHOOTING_SPEED: i64 = 5000;

/// Strike speed floor added to every shot, in world units.
pub const MIN_SHOOTING_SPEED: i64 = 200;

/// The normalized shot power, in hundredths: `0` is an empty meter, `100`
/// a full one. A fresh meter starts full.
#[derive(Debug, Clone, Copy, PartialEq, Eq, Structural)]
pub struct ShotPower(pub u8);

impl ShotPower {
    /// The meter never reads past full.
    pub open spec fn wf(self) -> bool {
        self.0 <= 100
    }
}

impl Default for ShotPower {
    /// A fresh meter is full.
    fn default() -> (p: Self)
        ensures
            p.0 == 100,
            p.wf(),
    {
        ShotPower(100)
    }
}

/// Where the pointer ray struck the cue ball: the hit point, and the
/// surface normal there as a unit vector carried in milliunits (so each
/// component lies within one thousand of zero).
#[derive(Debug, Clone, Copy, PartialEq, Eq, Structural)]
pub struct RayHit {
    pub position: Vec3i,
    pub normal: Vec3i,
}

impl RayHit {
    /// A surface normal is a unit vector, so its milliunit components are
    /// bounded by one thousand in magnitude.
    pub open spec fn wf(self) -> bool {
        -1000 <= self.normal.x <= 1000 && -1000 <= self.normal.y <= 1000 && -1000 <= self.normal.z
            <= 1000
    }
}

/// An instantaneous impulse for the physics engine to apply to the ball at
/// registry index `ball`, at the world-space point `point`, with the
/// ball's center at `center`.
#[derive(Debug, Clone, Copy, PartialEq, Eq, Structural)]
pub struct ShotImpulse {
    pub ball: usize,
    pub impulse: Vec3i,
    pub point: Vec3i,
    pub center: Vec3i,
}

/// What the aim indicator should do this tick.
#[derive(Debug, Clone, Copy, PartialEq, Eq, Structural)]
pub enum IndicatorUpdate {
    /// No pointer ray, or no cue ball: leave the indicator as it is.
    Keep,
    /// Hide the indicator.
    Hide,
    /// Show the indicator at `position`, aimed along `direction` (the
    /// inverted surface normal, in milliunits).
    Show { position: Vec3i, direction: Vec3i },
}

/// `k` indexes the first ball carrying the cue classification.
pub open spec fn is_first_cue(balls: Seq<Ball>, k: int) -> bool {
    &&& 0 <= k < balls.len()
    &&& balls[k].side == Side::Neither
    &&& forall|m: int| 0 <= m < k ==> (#[trigger] balls[m]).side != Side::Neither
}

/// Some live ball carries the cue classification.
pub open spec fn has_cue_ball(balls: Seq<Ball>) -> bool {
    exists|k: int| 0 <= k < balls.len() && (#[trigger] balls[k]).side == Side::Neither
}

/// Finds the cue ball: the first live ball classified `Neither`. Exactly
/// one should exist; if several somehow do, the first is picked
/// deterministically, and if none does, the controllers skip the tick.
pub fn find_cue_ball(balls: &Vec<Ball>) -> (found: Option<usize>)
    ensures
        match found {
            Some(k) => is_first_cue(balls@, k as int),
            None => !has_cue_ball(balls@),
        },
{
    let mut k: usize = 0;
    while k < balls.len()
        invariant
            k <= balls@.len(),
            forall|m: int| 0 <= m < k ==> (#[trigger] balls@[m]).side != Side::Neither,
        decreases balls@.len() - k,
    {
        if balls[k].side == Side::Neither {
            return Some(k);
        }
        k += 1;
    }
    None
}

/// The strike speed a power meter reading buys: the metered fraction of
/// `SHOOTING_SPEED`, plus the `MIN_SHOOTING_SPEED` floor.
pub open spec fn shot_speed(power: int) -> int {
    power * SHOOTING_SPEED / 100 + MIN_SHOOTING_SPEED
}

/// The impulse applied for a strike: directed along the inverted surface
/// normal scaled by the strike speed, with the vertical component zeroed
/// so a shot never launches the ball upward.
pub open spec fn impulse_vector(power: int, normal: Vec3i) -> Vec3i {
    Vec3i {
        x: (-shot_speed(power) * normal.x) as i64,
        y: 0,
        z: (-shot_speed(power) * normal.z) as i64,
    }
}

/// Moves the aim indicator. While the table is in motion the indicator is
/// hidden. Otherwise, if the pointer ray struck the cue ball, the
/// indicator is shown at the hit point aimed along the inverted normal; if
/// the ray missed, it is hidden; with no pointer ray or no cue ball at
/// all, it is left untouched.
///
/// `cue_hit` is the engine's ray cast against the cue ball alone, and is
/// only consulted when a pointer ray and a cue ball exist.
pub fn show_current_shot_position(
    state: BallsMovingState,
    balls: &Vec<Ball>,
    has_cursor_ray: bool,
    cue_hit: Option<RayHit>,
) -> (update: IndicatorUpdate)
    requires
        cue_hit matches Some(hit) ==> hit.wf(),
    ensures
        state == BallsMovingState::Moving ==> update == IndicatorUpdate::Hide,
        state == BallsMovingState::NotMoving && !has_cursor_ray ==> update
            == IndicatorUpdate::Keep,
        state == BallsMovingState::NotMoving && has_cursor_ray && !has_cue_ball(balls@)
            ==> update == IndicatorUpdate::Keep,
        state == BallsMovingState::NotMoving && has_cursor_ray && has_cue_ball(balls@)
            && cue_hit is None ==> update == IndicatorUpdate::Hide,
        state == BallsMovingState::NotMoving && has_cursor_ray && has_cue_ball(balls@) ==> (
        cue_hit matches Some(hit) ==> update == (IndicatorUpdate::Show {
            position: hit.position,
            direction: Vec3i {
                x: (-hit.normal.x) as i64,
                y: (-hit.normal.y) as i64,
                z: (-hit.normal.z) as i64,
            },
        })),
{
    if matches!(state, BallsMovingState::Moving) {
        return IndicatorUpdate::Hide;
    }
    if !has_cursor_ray {
        return IndicatorUpdate::Keep;
    }
    let cue = find_cue_ball(balls);
    if cue.is_none() {
        return IndicatorUpdate::Keep;
    }
    match cue_hit {
        None => IndicatorUpdate::Hide,
        Some(hit) => IndicatorUpdate::Show {
            position: hit.position,
            direction: Vec3i { x: -hit.normal.x, y: -hit.normal.y, z: -hit.normal.z },
        },
    }
}

/// Decides the shot for this tick. An impulse is emitted exactly when the
/// table is settled, the trigger is held, a cue ball exists and the
/// pointer ray struck it; the impulse is aimed along the inverted surface
/// normal, scaled by the metered strike speed, with its vertical component
/// zeroed, applied at the hit point against the cue ball's center. No
/// other ball is ever struck.
pub fn shoot_stick(
    state: BallsMovingState,
    mouse_pressed: bool,
    shot_power: &ShotPower,
    balls: &Vec<Ball>,
    cue_hit: Option<RayHit>,
) -> (shot: Option<ShotImpulse>)
    requires
        shot_power.wf(),
        cue_hit matches Some(hit) ==> hit.wf(),
    ensures
        shot is Some <==> state == BallsMovingState::NotMoving && mouse_pressed && has_cue_ball(
            balls@,
        ) && cue_hit is Some,
        shot matches Some(s) ==> {
            &&& is_first_cue(balls@, s.ball as int)
            &&& cue_hit matches Some(hit) && s.impulse == impulse_vector(
                shot_power.0 as int,
                hit.normal,
            ) && s.point == hit.position
            &&& s.center == balls@[s.ball as int].position
        },
{
    if matches!(state, BallsMovingState::Moving) {
        return None;
    }
    if !mouse_pressed {
        return None;
    }
    let cue = match find_cue_ball(balls) {
        Some(k) => k,
        None => {
            return None;
        },
    };
    match cue_hit {
        None => None,
        Some(hit) => {
            let speed: i64 = (shot_power.0 as i64) * SHOOTING_SPEED / 100 + MIN_SHOOTING_SPEED;
            proof {
                let s = speed as int;
                let nx = hit.normal.x as int;
                let nz = hit.normal.z as int;
                assert(200 <= s <= 5200);
                assert(-5200000 <= -s * nx <= 5200000) by (nonlinear_arith)
                    requires
                        200 <= s <= 5200,
                        -1000 <= nx <= 1000,
                ;
                assert(-5200000 <= -s * nz <= 5200000) by (nonlinear_arith)
                    requires
                        200 <= s <= 5200,
                        -1000 <= nz <= 1000,
                ;
            }
            Some(
                ShotImpulse {
                    ball: cue,
                    impulse: Vec3i { x: -speed * hit.normal.x, y: 0, z: -speed * hit.normal.z },
                    point: hit.position,
                    center: balls[cue].position,
                },
            )
        },
    }
}

} // verus!
