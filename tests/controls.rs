use tilemap_physics::controls::{controls, ControlAction, ControlKeys};
use tilemap_physics::player::Pose;

fn keys(move_left: bool, move_right: bool, jump: bool, reset: bool, exit: bool) -> ControlKeys {
    ControlKeys { move_left, move_right, jump, reset, exit }
}

const FRAME: u32 = 16_667;

#[test]
fn move_left_sets_negative_velocity() {
    let a = controls(&keys(true, false, false, false, false), FRAME, true);
    assert_eq!(a.velocity_x, Some(-66_668_000));
    assert_eq!(a.velocity_y, None);
    assert_eq!(a.pose, None);
    assert!(!a.exit);
}

#[test]
fn move_right_sets_positive_velocity() {
    let a = controls(&keys(false, true, false, false, false), FRAME, true);
    assert_eq!(a.velocity_x, Some(66_668_000));
}

#[test]
fn no_movement_key_stops_horizontally() {
    let a = controls(&keys(false, false, false, false, false), FRAME, true);
    assert_eq!(a.velocity_x, Some(0));
}

#[test]
fn left_wins_over_right() {
    let a = controls(&keys(true, true, false, false, false), 1_000, true);
    assert_eq!(a.velocity_x, Some(-4_000_000));
}

#[test]
fn zero_frame_time_gives_zero_velocity() {
    let a = controls(&keys(true, false, true, false, false), 0, true);
    assert_eq!(a.velocity_x, Some(0));
    assert_eq!(a.velocity_y, Some(0));
}

#[test]
fn fresh_jump_sets_vertical_velocity_once() {
    let pressed = controls(&keys(false, false, true, false, false), FRAME, true);
    assert_eq!(pressed.velocity_y, Some(-1_666_700_000));
    let held = controls(&keys(false, false, false, false, false), FRAME, true);
    assert_eq!(held.velocity_y, None);
}

#[test]
fn longest_frame_does_not_overflow() {
    let a = controls(&keys(false, true, true, false, false), u32::MAX, true);
    assert_eq!(a.velocity_x, Some(17_179_869_180_000));
    assert_eq!(a.velocity_y, Some(-429_496_729_500_000));
}

#[test]
fn fresh_reset_restores_spawn_pose() {
    let a = controls(&keys(false, false, false, true, false), FRAME, true);
    assert_eq!(a.pose, Some(Pose { x: 0, y: 100, z: 0, rotation_eighths: 1 }));
    let b = controls(&keys(false, false, false, false, false), FRAME, true);
    assert_eq!(b.pose, None);
}

#[test]
fn fresh_exit_requests_shutdown_once_per_press() {
    let frames = [
        keys(false, false, false, false, true),
        keys(false, false, false, false, false),
        keys(false, false, false, false, false),
        keys(false, false, false, false, true),
    ];
    let sent = frames.iter().filter(|k| controls(k, FRAME, true).exit).count();
    assert_eq!(sent, 2);
}

#[test]
fn missing_player_does_nothing() {
    let a = controls(&keys(true, false, true, true, true), FRAME, false);
    assert_eq!(
        a,
        ControlAction { velocity_x: None, velocity_y: None, pose: None, exit: false }
    );
}
