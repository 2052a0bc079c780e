use billiards::balls::check_ball_moving;
use billiards::balls::check_scored_ball;
use billiards::balls::spawn_balls;
use billiards::balls::Ball;
use billiards::balls::BallsMovingState;
use billiards::balls::ScoreEvent;
use billiards::balls::Side;
use billiards::balls::Superpower;
use billiards::geom::Vec3i;
use billiards::stick::find_cue_ball;
use billiards::stick::shoot_stick;
use billiards::stick::show_current_shot_position;
use billiards::stick::IndicatorUpdate;
use billiards::stick::RayHit;
use billiards::stick::ShotPower;
use billiards::table::tick;
use billiards::table::TickInput;
use billiards::ui::update_ui;

fn object_ball(side: Side, superpower: Superpower, y: i64, is_settled: bool) -> Ball {
    Ball {
        side,
        superpower,
        position: Vec3i { x: 0, y, z: 0 },
        is_settled,
    }
}

fn quiet_input() -> TickInput {
    TickInput {
        increase_held: false,
        decrease_held: false,
        mouse_pressed: false,
        has_cursor_ray: false,
        cue_hit: None,
    }
}

#[test]
fn spawn_has_exactly_one_cue_ball() {
    let balls = spawn_balls();
    assert_eq!(balls.len(), 16);
    let neither = balls.iter().filter(|b| b.side == Side::Neither).count();
    assert_eq!(neither, 1);
    assert_eq!(balls[15].side, Side::Neither);
    assert_eq!(balls[15].superpower, Superpower::NoPower);
}

#[test]
fn spawn_object_balls_draw_real_attributes() {
    let balls = spawn_balls();
    for b in balls.iter().take(15) {
        assert!(b.side == Side::Stripes || b.side == Side::Solids);
        assert_ne!(b.superpower, Superpower::NoPower);
    }
}

#[test]
fn spawn_rack_positions_are_fixed() {
    let balls = spawn_balls();
    // first racked ball: row 0, at the rack's apex offset
    assert_eq!(balls[0].position, Vec3i { x: -7200, y: 900, z: -35500 });
    // second ball: row 1 starts at its far side
    assert_eq!(balls[1].position, Vec3i { x: -5400, y: 900, z: -31900 });
    // last racked ball: row 4, innermost offset
    assert_eq!(balls[14].position, Vec3i { x: 7200, y: 900, z: -35500 });
    // the cue ball stands apart at a fixed offset
    assert_eq!(balls[15].position, Vec3i { x: 0, y: 900, z: 3600 });
    for b in balls.iter() {
        assert!(!b.is_settled);
    }
}

#[test]
fn spawn_repeats_keep_the_invariant() {
    for _ in 0..20 {
        let balls = spawn_balls();
        let neither = balls.iter().filter(|b| b.side == Side::Neither).count();
        assert_eq!(neither, 1);
    }
}

#[test]
fn random_side_never_draws_neither() {
    for _ in 0..200 {
        let s = Side::random();
        assert!(s == Side::Stripes || s == Side::Solids);
    }
}

#[test]
fn random_superpower_never_draws_none() {
    for _ in 0..200 {
        assert_ne!(Superpower::random(), Superpower::NoPower);
    }
}

#[test]
fn table_settles_only_when_every_ball_rests() {
    let settled = object_ball(Side::Solids, Superpower::ExtraPower, 900, true);
    let rolling = object_ball(Side::Stripes, Superpower::SecondLife, 900, false);

    let all_rest = vec![settled, settled, settled];
    assert_eq!(check_ball_moving(&all_rest), BallsMovingState::NotMoving);

    let one_rolls = vec![settled, rolling, settled];
    assert_eq!(check_ball_moving(&one_rolls), BallsMovingState::Moving);

    // no dependency on ordering
    let rolls_first = vec![rolling, settled, settled];
    let rolls_last = vec![settled, settled, rolling];
    assert_eq!(check_ball_moving(&rolls_first), BallsMovingState::Moving);
    assert_eq!(check_ball_moving(&rolls_last), BallsMovingState::Moving);

    let empty: Vec<Ball> = vec![];
    assert_eq!(check_ball_moving(&empty), BallsMovingState::NotMoving);
}

#[test]
fn ball_just_below_plane_is_pocketed() {
    // -0.01 world units is -10 milliunits
    let mut balls = vec![
        object_ball(Side::Stripes, Superpower::SecondLife, -10, true),
        object_ball(Side::Solids, Superpower::ExtraPower, 900, true),
    ];
    let scored = check_scored_ball(&mut balls);
    assert_eq!(balls.len(), 1);
    assert_eq!(balls[0].side, Side::Solids);
    assert_eq!(scored.len(), 1);
    assert_eq!(
        scored[0],
        ScoreEvent { side: Side::Stripes, superpower: Superpower::SecondLife }
    );
}

#[test]
fn ball_on_or_above_plane_is_never_pocketed() {
    let mut balls = vec![
        object_ball(Side::Stripes, Superpower::SecondLife, 0, true),
        object_ball(Side::Solids, Superpower::ExtraPower, 900, true),
    ];
    let scored = check_scored_ball(&mut balls);
    assert_eq!(balls.len(), 2);
    assert!(scored.is_empty());
}

#[test]
fn pocketing_is_idempotent() {
    let mut balls = vec![
        object_ball(Side::Stripes, Superpower::RemoveBall, -10, true),
        object_ball(Side::Solids, Superpower::ExtraPower, 900, true),
        object_ball(Side::Neither, Superpower::NoPower, -500, true),
    ];
    let first = check_scored_ball(&mut balls);
    assert_eq!(first.len(), 2);
    assert_eq!(balls.len(), 1);
    // a second scan over the survivors must not error, remove or score
    let second = check_scored_ball(&mut balls);
    assert!(second.is_empty());
    assert_eq!(balls.len(), 1);
}

#[test]
fn cue_ball_can_be_pocketed_like_any_other() {
    let mut balls = vec![object_ball(Side::Neither, Superpower::NoPower, -10, true)];
    let scored = check_scored_ball(&mut balls);
    assert_eq!(scored.len(), 1);
    assert_eq!(scored[0].side, Side::Neither);
    assert!(balls.is_empty());
}

#[test]
fn power_meter_defaults_to_full() {
    assert_eq!(ShotPower::default().0, 100);
}

#[test]
fn power_increase_accumulates_and_caps() {
    let mut power = ShotPower(95);
    for _ in 0..3 {
        update_ui(&mut power, true, false);
    }
    assert_eq!(power.0, 98);
    for _ in 0..10 {
        update_ui(&mut power, true, false);
    }
    assert_eq!(power.0, 100);
}

#[test]
fn power_decrease_accumulates_and_floors() {
    let mut power = ShotPower(4);
    for _ in 0..3 {
        update_ui(&mut power, false, true);
    }
    assert_eq!(power.0, 1);
    for _ in 0..10 {
        update_ui(&mut power, false, true);
    }
    assert_eq!(power.0, 0);
}

#[test]
fn power_both_keys_cancel_out() {
    for start in [0u8, 1, 50, 99, 100] {
        let mut power = ShotPower(start);
        for _ in 0..7 {
            update_ui(&mut power, true, true);
        }
        assert_eq!(power.0, start);
    }
}

#[test]
fn finds_the_first_cue_ball() {
    let cue = object_ball(Side::Neither, Superpower::NoPower, 900, true);
    let solid = object_ball(Side::Solids, Superpower::ExtraPower, 900, true);
    assert_eq!(find_cue_ball(&vec![solid, cue, solid]), Some(1));
    assert_eq!(find_cue_ball(&vec![solid, solid]), None);
    // several marked Neither: the first is picked deterministically
    assert_eq!(find_cue_ball(&vec![solid, cue, cue]), Some(1));
}

#[test]
fn no_shot_while_table_is_moving() {
    let cue = object_ball(Side::Neither, Superpower::NoPower, 900, false);
    let balls = vec![cue];
    let power = ShotPower(100);
    let hit = RayHit {
        position: Vec3i { x: 0, y: 1800, z: 0 },
        normal: Vec3i { x: 0, y: 1000, z: 0 },
    };
    let shot = shoot_stick(BallsMovingState::Moving, true, &power, &balls, Some(hit));
    assert!(shot.is_none());
    let update =
        show_current_shot_position(BallsMovingState::Moving, &balls, true, Some(hit));
    assert_eq!(update, IndicatorUpdate::Hide);
}

#[test]
fn no_shot_when_the_ray_misses() {
    let cue = object_ball(Side::Neither, Superpower::NoPower, 900, true);
    let balls = vec![cue];
    let power = ShotPower(100);
    let shot = shoot_stick(BallsMovingState::NotMoving, true, &power, &balls, None);
    assert!(shot.is_none());
    let update = show_current_shot_position(BallsMovingState::NotMoving, &balls, true, None);
    assert_eq!(update, IndicatorUpdate::Hide);
}

#[test]
fn no_shot_without_the_trigger_or_cue_ball() {
    let cue = object_ball(Side::Neither, Superpower::NoPower, 900, true);
    let solid = object_ball(Side::Solids, Superpower::ExtraPower, 900, true);
    let power = ShotPower(100);
    let hit = RayHit {
        position: Vec3i { x: 0, y: 1800, z: 0 },
        normal: Vec3i { x: 0, y: 1000, z: 0 },
    };
    let no_trigger =
        shoot_stick(BallsMovingState::NotMoving, false, &power, &vec![cue], Some(hit));
    assert!(no_trigger.is_none());
    let no_cue = shoot_stick(BallsMovingState::NotMoving, true, &power, &vec![solid], Some(hit));
    assert!(no_cue.is_none());
}

#[test]
fn side_shot_impulse_is_scaled_and_kept_level() {
    let cue = object_ball(Side::Neither, Superpower::NoPower, 900, true);
    let balls = vec![cue];
    let power = ShotPower(50);
    // strike square on the far face: the normal points along +z
    let hit = RayHit {
        position: Vec3i { x: 0, y: 900, z: 1800 },
        normal: Vec3i { x: 0, y: 0, z: 1000 },
    };
    let shot = shoot_stick(BallsMovingState::NotMoving, true, &power, &balls, Some(hit))
        .expect("a settled table, a held trigger and a hit must shoot");
    assert_eq!(shot.ball, 0);
    // speed 50 * 5000 / 100 + 200 = 2700, along -z, normal in milliunits
    assert_eq!(shot.impulse, Vec3i { x: 0, y: 0, z: -2700000 });
    assert_eq!(shot.point, Vec3i { x: 0, y: 900, z: 1800 });
    assert_eq!(shot.center, Vec3i { x: 0, y: 900, z: 0 });
}

#[test]
fn aim_indicator_follows_the_hit() {
    let cue = object_ball(Side::Neither, Superpower::NoPower, 900, true);
    let balls = vec![cue];
    let hit = RayHit {
        position: Vec3i { x: 100, y: 1800, z: -200 },
        normal: Vec3i { x: 0, y: 1000, z: 0 },
    };
    let update =
        show_current_shot_position(BallsMovingState::NotMoving, &balls, true, Some(hit));
    assert_eq!(
        update,
        IndicatorUpdate::Show {
            position: Vec3i { x: 100, y: 1800, z: -200 },
            direction: Vec3i { x: 0, y: -1000, z: 0 },
        }
    );
    // without a pointer ray the indicator is left untouched
    let keep = show_current_shot_position(BallsMovingState::NotMoving, &balls, false, None);
    assert_eq!(keep, IndicatorUpdate::Keep);
}

#[test]
fn full_rack_shot_strikes_only_the_cue_ball() {
    let mut balls = spawn_balls();
    for b in balls.iter_mut() {
        b.is_settled = true;
    }
    let mut power = ShotPower(50);
    let cue_center = balls[15].position;
    let hit = RayHit {
        position: Vec3i { x: cue_center.x, y: cue_center.y + 900, z: cue_center.z },
        normal: Vec3i { x: 0, y: 1000, z: 0 },
    };
    let input = TickInput {
        increase_held: false,
        decrease_held: false,
        mouse_pressed: true,
        has_cursor_ray: true,
        cue_hit: Some(hit),
    };
    let out = tick(&mut balls, &mut power, input);
    assert_eq!(out.state, BallsMovingState::NotMoving);
    assert!(out.scored.is_empty());
    assert_eq!(balls.len(), 16);
    let shot = out.shot.expect("the aimed shot must fire");
    // only the cue ball is struck
    assert_eq!(shot.ball, 15);
    // a straight-down normal leaves nothing once the vertical part is zeroed
    assert_eq!(shot.impulse, Vec3i { x: 0, y: 0, z: 0 });
    assert_eq!(shot.point, hit.position);
    assert_eq!(shot.center, cue_center);
}

#[test]
fn tick_gates_power_and_prunes_before_aiming() {
    // one ball still rolling: the meter must not move, nothing may fire
    let rolling = object_ball(Side::Solids, Superpower::ExtraPower, 900, false);
    let cue = object_ball(Side::Neither, Superpower::NoPower, 900, true);
    let mut balls = vec![rolling, cue];
    let mut power = ShotPower(40);
    let mut input = quiet_input();
    input.increase_held = true;
    input.mouse_pressed = true;
    let out = tick(&mut balls, &mut power, input);
    assert_eq!(out.state, BallsMovingState::Moving);
    assert_eq!(power.0, 40);
    assert!(out.shot.is_none());

    // the cue ball fell this tick: it is pruned before the stick looks
    let settled = object_ball(Side::Solids, Superpower::ExtraPower, 900, true);
    let fallen_cue = object_ball(Side::Neither, Superpower::NoPower, -10, true);
    let mut balls = vec![settled, fallen_cue];
    let mut power = ShotPower(40);
    let hit = RayHit {
        position: Vec3i { x: 0, y: 900, z: 0 },
        normal: Vec3i { x: 0, y: 0, z: 1000 },
    };
    let mut input = quiet_input();
    input.increase_held = true;
    input.has_cursor_ray = true;
    input.mouse_pressed = true;
    input.cue_hit = Some(hit);
    let out = tick(&mut balls, &mut power, input);
    assert_eq!(out.state, BallsMovingState::NotMoving);
    assert_eq!(out.scored.len(), 1);
    assert_eq!(out.scored[0].side, Side::Neither);
    assert_eq!(balls.len(), 1);
    // the meter ran, but with no cue ball left nothing fires
    assert_eq!(power.0, 41);
    assert!(out.shot.is_none());
}
