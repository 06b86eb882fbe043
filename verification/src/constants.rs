//! The game's fixed dimensions, speeds and states.  All lengths are whole
//! world pixels.

use vstd::prelude::*;
use crate::math::ColorMilli;

verus! {

/// The player sprite's width and height.
pub const PLAYER_SIZE: i64 = 64;

/// The player's speed in pixels per second.
pub const PLAYER_SPEED: i64 = 500;

/// The width of one screen of the world.
pub const WIDTH: i64 = 1920;

/// The height of one screen of the world.
pub const HEIGHT: i64 = 1080;

/// How thick each wall is.
pub const WALL_THICKNESS: i64 = 120;

/// The walkable floor's width.
pub const FLOOR_WIDTH: i64 = 1040;

/// The walkable floor's height.
pub const FLOOR_HEIGHT: i64 = 800;

/// The x coordinate of the left wall's outer face.
pub const LEFT_WALL: i64 = -640;

/// The x coordinate of the right wall's outer face.
pub const RIGHT_WALL: i64 = 640;

/// The y coordinate of the bottom wall's outer face.
pub const BOTTOM_WALL: i64 = -520;

/// The y coordinate of the top wall's outer face.
pub const TOP_WALL: i64 = 520;

/// Each wall segment's height.
pub const WALL_HEIGHT: i64 = 520;

/// Each wall segment's width.
pub const WALL_WIDTH: i64 = 640;

/// The width of the gap a door leaves in a wall.
pub const DOOR_WIDTH: i64 = 120;

/// The near-black color walls are drawn in.
pub fn wall_color() -> (c: ColorMilli)
    ensures
        c == (ColorMilli { r: 10, g: 10, b: 10 }),
{
    ColorMilli { r: 10, g: 10, b: 10 }
}

/// The red color doors are drawn in.
pub fn door_color() -> (c: ColorMilli)
    ensures
        c == (ColorMilli { r: 1000, g: 0, b: 0 }),
{
    ColorMilli { r: 1000, g: 0, b: 0 }
}

/// The top-level screens of the application.
#[derive(Clone, Copy, PartialEq, Eq, Structural, Debug)]
pub enum AppState {
    Splash,
    SetupGame,
    Game,
}

/// Whether the running game is paused.
#[derive(Clone, Copy, PartialEq, Eq, Structural, Debug)]
pub enum GameState {
    Running,
    Paused,
}

/// The scheduling buckets gameplay systems run in.
#[derive(Clone, Copy, PartialEq, Eq, Structural, Debug)]
pub enum AppSet {
    Player,
    Items,
}

} // verus!
