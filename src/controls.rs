use vstd::prelude::*;

use crate::player::{spawn_pose, spawn_pose_spec, Pose};

verus! {

/// Acceleration factor of the controls: horizontal speed per second of frame
/// time, in world units per second.
pub const SPEED: i64 = 4000;

/// How many times stronger than a horizontal step a jump is.
pub const JUMP_FACTOR: i64 = 25;

/// The state of the controls in one frame.
///
/// `move_left` and `move_right` say whether the key is held; the other three
/// say whether the key went down in this frame (a fresh press), which a key
/// that stays held does not repeat.
#[derive(Clone, Copy, Debug, PartialEq, Eq, Structural)]
pub struct ControlKeys {
    pub move_left: bool,
    pub move_right: bool,
    pub jump: bool,
    pub reset: bool,
    pub exit: bool,
}

/// A velocity, in millionths of a world unit per second.
#[derive(Clone, Copy, Debug, PartialEq, Eq, Structural)]
pub struct Velocity {
    pub x: i64,
    pub y: i64,
}

/// The player's components that the controls read and write.
#[derive(Clone, Copy, Debug, PartialEq, Eq, Structural)]
pub struct PlayerState {
    pub velocity: Velocity,
    pub pose: Pose,
}

/// What one frame of the controls does.
///
/// A component that is `None` is left as it was.
#[derive(Clone, Copy, Debug, PartialEq, Eq, Structural)]
pub struct ControlAction {
    /// New horizontal velocity, in millionths of a unit per second.
    pub velocity_x: Option<i64>,
    /// New vertical velocity, in millionths of a unit per second.
    pub velocity_y: Option<i64>,
    /// New pose of the player.
    pub pose: Option<Pose>,
    /// Whether to ask the application to shut down.
    pub exit: bool,
}

/// Horizontal velocity for the held keys after a frame of `dt` microseconds.
///
/// `SPEED * dt` microseconds gives `SPEED * dt` millionths of a unit per
/// second, so no scaling is needed.
pub open spec fn horizontal_velocity(keys: ControlKeys, dt: int) -> int {
    if keys.move_left {
        -SPEED * dt
    } else if keys.move_right {
        SPEED * dt
    } else {
        0
    }
}

/// Vertical velocity that a fresh jump sets after a frame of `dt` microseconds.
pub open spec fn jump_velocity(dt: int) -> int {
    -SPEED * JUMP_FACTOR * dt
}

/// What the controls do in one frame, given whether the player was found.
pub open spec fn control_action(keys: ControlKeys, dt: int, player_found: bool) -> ControlAction {
    if !player_found {
        ControlAction { velocity_x: None, velocity_y: None, pose: None, exit: false }
    } else {
        ControlAction {
            velocity_x: Some(horizontal_velocity(keys, dt) as i64),
            velocity_y: if keys.jump {
                Some(jump_velocity(dt) as i64)
            } else {
                None
            },
            pose: if keys.reset {
                Some(spawn_pose_spec())
            } else {
                None
            },
            exit: keys.exit,
        }
    }
}

/// The player's state after `action` is carried out on it.
pub open spec fn applied(action: ControlAction, state: PlayerState) -> PlayerState {
    PlayerState {
        velocity: Velocity {
            x: match action.velocity_x {
                Some(v) => v,
                None => state.velocity.x,
            },
            y: match action.velocity_y {
                Some(v) => v,
                None => state.velocity.y,
            },
        },
        pose: match action.pose {
            Some(p) => p,
            None => state.pose,
        },
    }
}

/// Decides one frame of the controls.
///
/// `dt_micros` is the time the last frame took. Where the player is not
/// found the frame does nothing, not even a shutdown request. Otherwise the
/// horizontal velocity is recomputed from the held keys; a fresh jump sets the
/// vertical velocity; a fresh reset puts the player back where it started;
/// a fresh exit asks the application to shut down.
pub fn controls(keys: &ControlKeys, dt_micros: u32, player_found: bool) -> (r: ControlAction)
    ensures
        r == control_action(*keys, dt_micros as int, player_found),
{
    if !player_found {
        return ControlAction { velocity_x: None, velocity_y: None, pose: None, exit: false };
    }
    let dt = dt_micros as i64;
    proof {
        lemma_velocities_fit(dt as int);
    }
    let velocity_x = if keys.move_left {
        -SPEED * dt
    } else if keys.move_right {
        SPEED * dt
    } else {
        0
    };
    let velocity_y = if keys.jump {
        Some(-SPEED * JUMP_FACTOR * dt)
    } else {
        None
    };
    let pose = if keys.reset {
        Some(spawn_pose())
    } else {
        None
    };
    ControlAction { velocity_x: Some(velocity_x), velocity_y, pose, exit: keys.exit }
}

/// The keys of a frame in which nothing but the given movement keys is held.
pub open spec fn only_keys(move_left: bool, move_right: bool) -> ControlKeys {
    ControlKeys { move_left, move_right, jump: false, reset: false, exit: false }
}

proof fn lemma_velocities_fit(dt: int)
    requires
        0 <= dt <= u32::MAX,
    ensures
        0 <= SPEED * dt <= 4000 * 4_294_967_295,
        -100_000 * 4_294_967_295 <= -SPEED * JUMP_FACTOR * dt <= -SPEED * dt <= 0,
{
    assert(0 <= SPEED * dt <= 4000 * 4_294_967_295 && -100_000 * 4_294_967_295 <= -SPEED
        * JUMP_FACTOR * dt <= -SPEED * dt <= 0) by (nonlinear_arith)
        requires
            0 <= dt <= 4_294_967_295,
            SPEED == 4000,
            JUMP_FACTOR == 25,
    ;
}

/// After one frame with move-left held and no other input the horizontal
/// velocity is `-SPEED * dt`; with move-right alone it is `SPEED * dt`; with
/// neither it is zero, whatever it was before.
pub proof fn horizontal_velocity_from_held_keys(dt: int, state: PlayerState)
    requires
        0 <= dt <= u32::MAX,
    ensures
        applied(control_action(only_keys(true, false), dt, true), state).velocity.x == -SPEED
            * dt,
        applied(control_action(only_keys(false, true), dt, true), state).velocity.x == SPEED
            * dt,
        applied(control_action(only_keys(false, false), dt, true), state).velocity.x == 0,
{
    lemma_velocities_fit(dt);
}

/// A fresh jump press sets the vertical velocity to `-SPEED * JUMP_FACTOR * dt`;
/// in a following frame where the key is still held but not pressed anew, the
/// vertical velocity is left as it is.
pub proof fn jump_once_per_press(
    pressed: ControlKeys,
    held: ControlKeys,
    dt1: int,
    dt2: int,
    before: PlayerState,
    between: PlayerState,
)
    requires
        pressed.jump,
        !held.jump,
        0 <= dt1 <= u32::MAX,
        0 <= dt2 <= u32::MAX,
    ensures
        applied(control_action(pressed, dt1, true), before).velocity.y == jump_velocity(dt1),
        control_action(held, dt2, true).velocity_y is None,
        applied(control_action(held, dt2, true), between).velocity.y == between.velocity.y,
{
    lemma_velocities_fit(dt1);
}

/// A fresh reset press puts the player back at exactly its starting pose,
/// wherever it was.
pub proof fn reset_restores_spawn_pose(keys: ControlKeys, dt: int, state: PlayerState)
    requires
        keys.reset,
    ensures
        applied(control_action(keys, dt, true), state).pose == spawn_pose_spec(),
{
}

/// Number of frames among `frames` in which the exit key was freshly pressed.
pub open spec fn exit_presses(frames: Seq<ControlKeys>) -> nat
    decreases frames.len(),
{
    if frames.len() == 0 {
        0
    } else {
        exit_presses(frames.drop_last()) + if frames.last().exit {
            1nat
        } else {
            0nat
        }
    }
}

/// Number of shutdown requests that the controls make over `frames`.
pub open spec fn exit_requests(frames: Seq<ControlKeys>, dt: int) -> nat
    decreases frames.len(),
{
    if frames.len() == 0 {
        0
    } else {
        exit_requests(frames.drop_last(), dt) + if control_action(
            frames.last(),
            dt,
            true,
        ).exit {
            1nat
        } else {
            0nat
        }
    }
}

/// Over any run of frames in which the player exists, the controls ask for a
/// shutdown exactly once per fresh press of the exit key.
pub proof fn exit_once_per_press(frames: Seq<ControlKeys>, dt: int)
    ensures
        exit_requests(frames, dt) == exit_presses(frames),
    decreases frames.len(),
{
    if frames.len() > 0 {
        exit_once_per_press(frames.drop_last(), dt);
    }
}

} // verus!
