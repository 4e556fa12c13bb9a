//! The per-player physics step and trajectory, on concrete states.
//!
//! Scales: positions in millionths of a world unit, velocities in
//! thousandths of a unit per second, time deltas in milliseconds.

use simcore::command::HorizontalIntent;
use simcore::player::{
    check_step_fits, run_steps, step_player, PlayerState, FLOOR, MAX_X, MIN_X,
};

fn airborne(id: &str, pos_x: i64, pos_y: i64, vel_y: i64, intent: HorizontalIntent) -> PlayerState {
    PlayerState {
        id: id.to_string(),
        pos_x,
        pos_y,
        vel_x: 0,
        vel_y,
        on_ground: false,
        is_jumping: false,
        intent,
    }
}

#[test]
fn gravity_integration_exact() {
    let mut p = airborne("A", 0, 0, 0, HorizontalIntent::Still);
    step_player(&mut p, 100);
    // -600 u/s^2 for 0.1 s: velocity -60 u/s, position -6 u
    assert_eq!(p.vel_y, -60_000);
    assert_eq!(p.pos_y, -6_000_000);
    assert!(!p.on_ground);
}

#[test]
fn floor_clamp_exact_despite_overshoot() {
    let mut p = airborne("A", 0, -99_000_000, -200_000, HorizontalIntent::Still);
    p.is_jumping = true;
    // a whole second: the raw position would be hundreds of units below
    // the floor; the clamp pins it exactly on the floor
    step_player(&mut p, 1000);
    assert_eq!(p.pos_y, FLOOR);
    assert_eq!(p.pos_y, -100_000_000);
    assert_eq!(p.vel_y, 0);
    assert!(p.on_ground);
    assert!(!p.is_jumping);
}

#[test]
fn trajectory_is_reproducible() {
    let start = airborne("A", 1_000_000, 50_000_000, -123_000, HorizontalIntent::Right);
    let dts: Vec<u32> = vec![16, 17, 100, 0, 33, 1000, 7];
    let mut a = start.clone();
    run_steps(&mut a, &dts);
    let mut b = start.clone();
    run_steps(&mut b, &dts);
    assert_eq!(a, b);
    // and the batched run equals stepping one delta at a time
    let mut c = start.clone();
    for dt in &dts {
        step_player(&mut c, *dt);
    }
    assert_eq!(a, c);
}

#[test]
fn horizontal_step_clamps_to_playfield() {
    let mut p = airborne("A", 499_000_000, 0, 0, HorizontalIntent::Right);
    step_player(&mut p, 0);
    assert_eq!(p.pos_x, MAX_X);
    let mut q = airborne("A", -499_000_000, 0, 0, HorizontalIntent::Left);
    step_player(&mut q, 0);
    assert_eq!(q.pos_x, MIN_X);
    let mut r = airborne("A", 7_000_000, 0, 0, HorizontalIntent::Still);
    step_player(&mut r, 0);
    assert_eq!(r.pos_x, 7_000_000);
}

#[test]
fn grounded_player_stays_pinned() {
    let mut p = airborne("A", 0, FLOOR, 0, HorizontalIntent::Still);
    p.on_ground = true;
    step_player(&mut p, 100);
    assert_eq!(p.pos_y, FLOOR);
    assert_eq!(p.vel_y, 0);
    assert!(p.on_ground);
}

#[test]
fn step_fits_decides_machine_limits() {
    let p = airborne("A", 0, 0, 0, HorizontalIntent::Still);
    assert!(check_step_fits(&p, 100));
    // the position product of an absurd delta leaves 64 bits
    assert!(!check_step_fits(&p, u32::MAX));
}
