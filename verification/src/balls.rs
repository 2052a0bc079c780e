//! Balls: classification and hidden abilities, the rack spawner, the
//! pocketing rule and the table state machine.

use vstd::prelude::*;

use crate::geom::Vec3i;

verus! {

/// Diameter-scale size of a ball, in milliunits.
pub const BALL_SIZE: i64 = 1800;

/// Half the table's length, in milliunits; the rack is placed this far
/// down the table from the origin.
pub const WALL_LENGTH: i64 = 35500;

/// Whether any ball on the table is still in motion. Input-gated systems
/// (the stick controller, the power meter) are disabled while `Moving`.
#[derive(Debug, Clone, Copy, PartialEq, Eq, Structural)]
pub enum BallsMovingState {
    Moving,
    NotMoving,
}

impl Default for BallsMovingState {
    /// The table starts at rest.
    fn default() -> (s: Self)
        ensures
            s == BallsMovingState::NotMoving,
    {
        BallsMovingState::NotMoving
    }
}

/// A ball's group membership; `Neither` marks the unique cue ball.
#[derive(Debug, Clone, Copy, PartialEq, Eq, Structural)]
pub enum Side {
    Stripes,
    Solids,
    Neither,
}

impl Default for Side {
    /// The structural default before randomization runs; also the cue
    /// ball's forced classification.
    fn default() -> (s: Self)
        ensures
            s == Side::Neither,
    {
        Side::Neither
    }
}

/// A ball's hidden special ability, assigned at spawn and only stored; no
/// gameplay rule consumes it yet.
#[derive(Debug, Clone, Copy, PartialEq, Eq, Structural)]
pub enum Superpower {
    ExtraPower,
    SecondLife,
    RemoveBall,
    NoPower,
}

impl Default for Superpower {
    /// The structural default before randomization runs; also the cue
    /// ball's forced ability.
    fn default() -> (s: Self)
        ensures
            s == Superpower::NoPower,
    {
        Superpower::NoPower
    }
}

/// Relies on `fastrand::u8` on the range `0..n`: the draw is uniform over
/// that range, so it is below `n`; the range is non-empty since `n >= 1`,
/// which rules out the crate's empty-range panic.
#[verifier::external_body]
fn random_u8_below(n: u8) -> (r: u8)
    requires
        n >= 1,
    ensures
        r < n,
{
    fastrand::u8(0..n)
}

/// Maps a raw draw to a side: `0` is `Stripes`, `1` is `Solids`, anything
/// else falls back to the structural default `Neither`.
pub fn side_from_draw(draw: u8) -> (s: Side)
    ensures
        s == (if draw == 0 {
            Side::Stripes
        } else if draw == 1 {
            Side::Solids
        } else {
            Side::Neither
        }),
{
    match draw {
        0 => Side::Stripes,
        1 => Side::Solids,
        _ => Side::Neither,
    }
}

/// Maps a raw draw, reduced modulo three, to an ability; the fallback arm
/// is unreachable for draws below three.
pub fn superpower_from_draw(draw: u8) -> (s: Superpower)
    ensures
        s == (if draw % 3 == 0 {
            Superpower::ExtraPower
        } else if draw % 3 == 1 {
            Superpower::SecondLife
        } else {
            Superpower::RemoveBall
        }),
{
    match draw % 3 {
        0 => Superpower::ExtraPower,
        1 => Superpower::SecondLife,
        _ => Superpower::RemoveBall,
    }
}

impl Side {
    /// A uniform draw over the two real groups: the randomizer never
    /// produces `Neither`.
    pub fn random() -> (s: Side)
        ensures
            s == Side::Stripes || s == Side::Solids,
    {
        let result = random_u8_below(2);
        side_from_draw(result)
    }
}

impl Superpower {
    /// A uniform draw over the three real abilities: the randomizer never
    /// produces the empty `NoPower` default.
    pub fn random() -> (s: Superpower)
        ensures
            s != Superpower::NoPower,
    {
        let result = random_u8_below(3);
        superpower_from_draw(result)
    }
}

/// A live ball. Classification and ability are immutable once assigned;
/// position and the rest flag mirror what the physics engine owns and are
/// only read by the rules here.
#[derive(Debug, Clone, Copy, PartialEq, Eq, Structural)]
pub struct Ball {
    pub side: Side,
    pub superpower: Superpower,
    pub position: Vec3i,
    pub is_settled: bool,
}

/// Builds the entity record for a ball placed on the table: the given
/// attributes, resting half a ball size above the plane at `(x, z)`, and
/// not yet marked settled (the engine sets that flag once it is at rest).
pub fn ball(side: Side, superpower: Superpower, x: i64, z: i64) -> (b: Ball)
    ensures
        b.side == side,
        b.superpower == superpower,
        b.position.x == x,
        b.position.y == BALL_SIZE / 2,
        b.position.z == z,
        !b.is_settled,
{
    Ball {
        side: side,
        superpower: superpower,
        position: Vec3i { x: x, y: BALL_SIZE / 2, z: z },
        is_settled: false,
    }
}

/// The rack row that the flat spawn index `k` falls in: row `i` holds
/// `i + 1` balls, so rows begin at indices 0, 1, 3, 6 and 10.
pub open spec fn rack_row(k: int) -> int {
    if k < 1 {
        0
    } else if k < 3 {
        1
    } else if k < 6 {
        2
    } else if k < 10 {
        3
    } else {
        4
    }
}

/// The within-row offset index for flat spawn index `k`; inside a row it
/// counts down from the row index to zero.
pub open spec fn rack_ii(k: int) -> int {
    rack_row(k) + rack_row(k) * (rack_row(k) + 1) / 2 - k
}

/// The lateral coordinate of the `k`-th racked object ball: a triangular
/// arrangement at offsets scaled by the ball size.
pub open spec fn rack_x(k: int) -> int {
    2 * BALL_SIZE * rack_row(k) - BALL_SIZE * rack_ii(k) - 4 * BALL_SIZE
}

/// The lengthwise coordinate of the `k`-th racked object ball: the rack
/// stands at the far end of the table.
pub open spec fn rack_z(k: int) -> int {
    2 * BALL_SIZE * rack_ii(k) - WALL_LENGTH
}

/// Whether a ball stands where the `k`-th racked object ball is spawned,
/// resting half a ball size above the table plane.
pub open spec fn at_rack_position(p: Vec3i, k: int) -> bool {
    p.x == rack_x(k) && p.y == BALL_SIZE / 2 && p.z == rack_z(k)
}

/// Whether a ball stands where the cue ball is spawned.
pub open spec fn at_cue_position(p: Vec3i) -> bool {
    p.x == 0 && p.y == BALL_SIZE / 2 && p.z == 2 * BALL_SIZE
}

/// How many balls in the sequence carry the cue classification.
pub open spec fn count_neither(balls: Seq<Ball>) -> int
    decreases balls.len(),
{
    if balls.len() == 0 {
        0
    } else {
        count_neither(balls.drop_last()) + if balls.last().side == Side::Neither {
            1int
        } else {
            0int
        }
    }
}

proof fn lemma_count_neither_zero(balls: Seq<Ball>)
    requires
        forall|k: int| 0 <= k < balls.len() ==> (#[trigger] balls[k]).side != Side::Neither,
    ensures
        count_neither(balls) == 0,
    decreases balls.len(),
{
    if balls.len() > 0 {
        lemma_count_neither_zero(balls.drop_last());
    }
}

/// The flat spawn index at which rack row `i` starts: the total size of
/// the rows before it.
pub open spec fn row_start(i: int) -> int
    decreases (if i <= 0 { 0int } else { i }),
{
    if i <= 0 {
        0
    } else {
        row_start(i - 1) + i
    }
}

/// Row `i` of the rack starts at flat index `row_start(i)`; the `j`-th
/// ball pushed in that row lands at within-row offset `i - j`.
proof fn lemma_rack_index(i: int, j: int)
    requires
        0 <= i < 5,
        0 <= j <= i,
    ensures
        rack_row(row_start(i) + j) == i,
        rack_ii(row_start(i) + j) == i - j,
{
    assert(row_start(0) == 0);
    assert(row_start(1) == 1);
    assert(row_start(2) == 3);
    assert(row_start(3) == 6);
    assert(row_start(4) == 10);
}

/// Spawns the session's balls in one batch: fifteen object balls in a
/// five-row triangular rack, each with freshly randomized attributes, then
/// exactly one cue ball at a fixed offset with forced default attributes.
/// No ball is spawned after this.
pub fn spawn_balls() -> (balls: Vec<Ball>)
    ensures
        balls@.len() == 16,
        forall|k: int| 0 <= k < 15 ==> (#[trigger] balls@[k]).side != Side::Neither,
        forall|k: int| 0 <= k < 15 ==> (#[trigger] balls@[k]).superpower != Superpower::NoPower,
        forall|k: int| 0 <= k < 15 ==> at_rack_position((#[trigger] balls@[k]).position, k),
        forall|k: int| 0 <= k < 16 ==> !(#[trigger] balls@[k]).is_settled,
        balls@[15].side == Side::Neither,
        balls@[15].superpower == Superpower::NoPower,
        at_cue_position(balls@[15].position),
        count_neither(balls@) == 1,
{
    let mut balls: Vec<Ball> = Vec::new();
    for i in 0..5usize
        invariant
            balls@.len() == row_start(i as int),
            forall|k: int| 0 <= k < balls@.len() ==> (#[trigger] balls@[k]).side != Side::Neither,
            forall|k: int|
                0 <= k < balls@.len() ==> (#[trigger] balls@[k]).superpower != Superpower::NoPower,
            forall|k: int|
                0 <= k < balls@.len() ==> at_rack_position((#[trigger] balls@[k]).position, k),
            forall|k: int| 0 <= k < balls@.len() ==> !(#[trigger] balls@[k]).is_settled,
    {
        // each row holds one more ball than the last, placed from the
        // row's far side inward
        let mut j: usize = 0;
        while j <= i
            invariant
                i < 5,
                j <= i + 1,
                balls@.len() == row_start(i as int) + j,
                forall|k: int| 0 <= k < balls@.len() ==> (#[trigger] balls@[k]).side != Side::Neither,
                forall|k: int|
                    0 <= k < balls@.len() ==> (#[trigger] balls@[k]).superpower != Superpower::NoPower,
                forall|k: int|
                    0 <= k < balls@.len() ==> at_rack_position((#[trigger] balls@[k]).position, k),
                forall|k: int| 0 <= k < balls@.len() ==> !(#[trigger] balls@[k]).is_settled,
            decreases i + 1 - j,
        {
            let ii = i - j;
            let row: i64 = i as i64;
            let off: i64 = ii as i64;
            let b = ball(
                Side::random(),
                Superpower::random(),
                2 * BALL_SIZE * row - BALL_SIZE * off - 4 * BALL_SIZE,
                2 * BALL_SIZE * off - WALL_LENGTH,
            );
            proof {
                lemma_rack_index(i as int, j as int);
            }
            balls.push(b);
            j += 1;
        }
    }
    proof {
        assert(row_start(0) == 0);
        assert(row_start(1) == 1);
        assert(row_start(2) == 3);
        assert(row_start(3) == 6);
        assert(row_start(4) == 10);
        assert(row_start(5) == 15);
    }
    let ghost rack: Seq<Ball> = balls@;
    let cue = ball(Side::Neither, Superpower::NoPower, 0, 2 * BALL_SIZE);
    balls.push(cue);
    proof {
        assert(balls@.drop_last() =~= rack);
        lemma_count_neither_zero(rack);
        assert(balls@.last() == cue);
    }
    balls
}

/// True when every ball in the registry is at rest.
pub open spec fn all_settled(balls: Seq<Ball>) -> bool {
    forall|k: int| 0 <= k < balls.len() ==> (#[trigger] balls[k]).is_settled
}

/// Derives the table state for this tick: `Moving` as soon as any live
/// ball's engine-owned rest flag is clear, `NotMoving` otherwise. A single
/// unsettled ball forces `Moving`; there is no hysteresis.
pub fn check_ball_moving(balls: &Vec<Ball>) -> (state: BallsMovingState)
    ensures
        state == BallsMovingState::NotMoving <==> all_settled(balls@),
        state == BallsMovingState::Moving <==> !all_settled(balls@),
{
    for k in 0..balls.len()
        invariant
            forall|m: int| 0 <= m < k ==> (#[trigger] balls@[m]).is_settled,
    {
        if !balls[k].is_settled {
            return BallsMovingState::Moving;
        }
    }
    BallsMovingState::NotMoving
}

/// Record emitted when a ball is pocketed: the classification and ability
/// it carried, observable to the caller before the ball is removed.
#[derive(Debug, Clone, Copy, PartialEq, Eq, Structural)]
pub struct ScoreEvent {
    pub side: Side,
    pub superpower: Superpower,
}

/// A ball below the table plane has been pocketed.
pub open spec fn pocketed(b: Ball) -> bool {
    b.position.y < 0
}

/// The record a pocketed ball leaves behind.
pub open spec fn event_of(b: Ball) -> ScoreEvent {
    ScoreEvent { side: b.side, superpower: b.superpower }
}

/// The balls that survive one pocketing scan, in their original order.
pub open spec fn surviving(balls: Seq<Ball>) -> Seq<Ball>
    decreases balls.len(),
{
    if balls.len() == 0 {
        Seq::empty()
    } else if pocketed(balls.last()) {
        surviving(balls.drop_last())
    } else {
        surviving(balls.drop_last()).push(balls.last())
    }
}

/// The records emitted by one pocketing scan, in registry order.
pub open spec fn score_events(balls: Seq<Ball>) -> Seq<ScoreEvent>
    decreases balls.len(),
{
    if balls.len() == 0 {
        Seq::empty()
    } else if pocketed(balls.last()) {
        score_events(balls.drop_last()).push(event_of(balls.last()))
    } else {
        score_events(balls.drop_last())
    }
}

/// One pocketing scan: every ball whose vertical coordinate has dropped
/// below the table plane is removed from the registry, immediately and
/// regardless of classification, and a record of it is returned. Surviving
/// balls keep their order.
pub fn check_scored_ball(balls: &mut Vec<Ball>) -> (scored: Vec<ScoreEvent>)
    ensures
        final(balls)@ == surviving(old(balls)@),
        scored@ == score_events(old(balls)@),
{
    let ghost orig: Seq<Ball> = balls@;
    let mut kept: Vec<Ball> = Vec::new();
    let mut scored: Vec<ScoreEvent> = Vec::new();
    let mut k: usize = 0;
    while k < balls.len()
        invariant
            balls@ == orig,
            k <= orig.len(),
            kept@ == surviving(orig.take(k as int)),
            scored@ == score_events(orig.take(k as int)),
        decreases orig.len() - k,
    {
        let b = balls[k];
        proof {
            assert(orig.take(k + 1).drop_last() =~= orig.take(k as int));
            assert(orig.take(k + 1).last() == b);
        }
        if b.position.y < 0 {
            scored.push(ScoreEvent { side: b.side, superpower: b.superpower });
        } else {
            kept.push(b);
        }
        k += 1;
    }
    proof {
        assert(orig.take(orig.len() as int) =~= orig);
    }
    *balls = kept;
    scored
}

/// Every survivor of a pocketing scan still rests above the table plane.
pub proof fn lemma_surviving_above_plane(balls: Seq<Ball>)
    ensures
        forall|k: int| 0 <= k < surviving(balls).len() ==> !pocketed(#[trigger] surviving(balls)[k]),
    decreases balls.len(),
{
    if balls.len() > 0 {
        let dl = balls.drop_last();
        lemma_surviving_above_plane(dl);
        if !pocketed(balls.last()) {
            assert forall|k: int| 0 <= k < surviving(balls).len() implies !pocketed(
                #[trigger] surviving(balls)[k],
            ) by {
                if k < surviving(dl).len() {
                    assert(surviving(balls)[k] == surviving(dl)[k]);
                } else {
                    assert(surviving(balls)[k] == balls.last());
                }
            }
        }
    }
}

proof fn lemma_scan_of_unpocketed(balls: Seq<Ball>)
    requires
        forall|k: int| 0 <= k < balls.len() ==> !pocketed(#[trigger] balls[k]),
    ensures
        surviving(balls) == balls,
        score_events(balls) == Seq::<ScoreEvent>::empty(),
    decreases balls.len(),
{
    if balls.len() > 0 {
        lemma_scan_of_unpocketed(balls.drop_last());
        assert(surviving(balls.drop_last()).push(balls.last()) =~= balls);
    }
}

/// Pocketing is idempotent: a second scan over the survivors of a first
/// scan removes nothing and scores nothing.
pub proof fn lemma_scoring_idempotent(balls: Seq<Ball>)
    ensures
        surviving(surviving(balls)) == surviving(balls),
        score_events(surviving(balls)) == Seq::<ScoreEvent>::empty(),
{
    lemma_surviving_above_plane(balls);
    lemma_scan_of_unpocketed(surviving(balls));
}

} // verus!
