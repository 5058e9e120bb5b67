use vstd::prelude::*;

use crate::tiles::BodyKind;

verus! {

/// Position and orientation of an entity.
///
/// Positions are in world units; the rotation is about the z axis, counted
/// in eighths of a full turn (one eighth is a quarter of pi radians).
#[derive(Clone, Copy, Debug, PartialEq, Eq, Structural)]
pub struct Pose {
    pub x: i64,
    pub y: i64,
    pub z: i64,
    pub rotation_eighths: i64,
}

/// The collision shape attached to the player as a child entity.
#[derive(Clone, Copy, Debug, PartialEq, Eq, Structural)]
pub struct ChildCollider {
    /// Full width and height of the box, in world units.
    pub width: u32,
    pub height: u32,
    /// Offset and rotation relative to the parent body.
    pub offset: Pose,
}

/// The player: one dynamic body with a regular polygon as its visual shape
/// and a box collider as its child.
#[derive(Clone, Copy, Debug, PartialEq, Eq, Structural)]
pub struct PlayerSpawn {
    pub body: BodyKind,
    /// Whether the body's orientation is kept fixed whatever torque acts on it.
    pub rotation_locked: bool,
    /// Where the player starts.
    pub pose: Pose,
    /// Circumradius of the visual polygon, in world units.
    pub shape_radius: u32,
    /// Number of sides of the visual polygon.
    pub shape_sides: u32,
    pub collider: ChildCollider,
}

/// Where the player starts, and where a reset puts it back.
pub open spec fn spawn_pose_spec() -> Pose {
    Pose { x: 0, y: 100, z: 0, rotation_eighths: 1 }
}

/// The player as it is created at startup.
pub open spec fn player_spawn_spec() -> PlayerSpawn {
    PlayerSpawn {
        body: BodyKind::Dynamic,
        rotation_locked: true,
        pose: spawn_pose_spec(),
        shape_radius: 20,
        shape_sides: 4,
        collider: ChildCollider {
            width: 30,
            height: 30,
            offset: Pose { x: 0, y: 0, z: 0, rotation_eighths: 1 },
        },
    }
}

/// Where the player starts, and where a reset puts it back.
pub fn spawn_pose() -> (r: Pose)
    ensures
        r == spawn_pose_spec(),
{
    Pose { x: 0, y: 100, z: 0, rotation_eighths: 1 }
}

/// Describes the single player entity created at startup: a dynamic body with
/// its rotation locked, and a child box collider turned by the same angle.
pub fn spawn_player() -> (r: PlayerSpawn)
    ensures
        r == player_spawn_spec(),
        r.body == BodyKind::Dynamic,
        r.rotation_locked,
{
    PlayerSpawn {
        body: BodyKind::Dynamic,
        rotation_locked: true,
        pose: spawn_pose(),
        shape_radius: 20,
        shape_sides: 4,
        collider: ChildCollider {
            width: 30,
            height: 30,
            offset: Pose { x: 0, y: 0, z: 0, rotation_eighths: 1 },
        },
    }
}

} // verus!
