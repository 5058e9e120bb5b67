//! A row of static tile colliders, one dynamic player body, and the keyboard
//! controls that steer it: what to spawn and what each frame does, as plain
//! values that a game engine then carries out.

pub mod controls;
pub mod player;
pub mod tiles;
