//! The player: its components, its spawn bundle and its clamped movement.

use vstd::prelude::*;
use crate::constants::{
    BOTTOM_WALL, LEFT_WALL, PLAYER_SIZE, PLAYER_SPEED, RIGHT_WALL, TOP_WALL, WALL_THICKNESS,
};
use crate::math::{Vec2I, clamp_i64, spec_clamp};

verus! {

/// The marker component of the one player entity.
#[derive(Clone, Copy, PartialEq, Eq, Structural, Debug)]
pub struct Player;

/// How many hearts of life an entity has left.
#[derive(Clone, Copy, PartialEq, Eq, Structural, Debug)]
pub struct Life(pub u32);

/// Movement speed in pixels per second.
#[derive(Clone, Copy, PartialEq, Eq, Structural, Debug)]
pub struct Speed(pub i64);

/// Everything the player entity spawns with.
#[derive(Clone, Copy, PartialEq, Eq, Structural, Debug)]
pub struct PlayerBundle {
    pub player: Player,
    pub life: Life,
    pub position: Vec2I,
    /// The draw layer the player sprite sits on.
    pub layer: i64,
    pub texture: u64,
    pub sprite_size: Vec2I,
    /// The radius of the player's round collider.
    pub collider_radius: i64,
    pub speed: Speed,
}

impl PlayerBundle {
    /// The player entity: two hearts, the standard sprite and speed, and a
    /// round collider a quarter of the sprite wide.
    pub fn new(position: Vec2I, image: u64) -> (b: PlayerBundle)
        ensures
            b.player == Player,
            b.life == Life(2),
            b.position == position,
            b.layer == 3,
            b.texture == image,
            b.sprite_size == (Vec2I { x: PLAYER_SIZE, y: PLAYER_SIZE }),
            b.collider_radius == PLAYER_SIZE / 4,
            b.speed == Speed(PLAYER_SPEED),
    {
        PlayerBundle {
            player: Player,
            life: Life(2),
            position,
            layer: 3,
            texture: image,
            sprite_size: Vec2I { x: PLAYER_SIZE, y: PLAYER_SIZE },
            collider_radius: PLAYER_SIZE / 4,
            speed: Speed(PLAYER_SPEED),
        }
    }
}

/// How far the player travels along one axis in `dt_ms` milliseconds.
pub open spec fn spec_step(dt_ms: int) -> int {
    PLAYER_SPEED * dt_ms / 1000
}

/// The lowest x the player's center may reach.
pub open spec fn spec_left_bound() -> int {
    LEFT_WALL + WALL_THICKNESS / 2 + PLAYER_SIZE / 2
}

/// The highest x the player's center may reach.
pub open spec fn spec_right_bound() -> int {
    RIGHT_WALL - WALL_THICKNESS / 2 - PLAYER_SIZE / 2
}

/// The lowest y the player's center may reach.
pub open spec fn spec_bottom_bound() -> int {
    BOTTOM_WALL + WALL_THICKNESS / 2 + PLAYER_SIZE / 2
}

/// The highest y the player's center may reach.
pub open spec fn spec_top_bound() -> int {
    TOP_WALL - WALL_THICKNESS / 2 - PLAYER_SIZE / 2
}

/// Where the player ends up after one movement tick: each held direction
/// moves the player at full speed for `dt_ms` milliseconds, and the new
/// position is clamped so the sprite never leaves the room.
pub open spec fn spec_moved(pos: Vec2I, dir_x: int, dir_y: int, dt_ms: int) -> Vec2I {
    Vec2I {
        x: spec_clamp(
            pos.x + dir_x * spec_step(dt_ms),
            spec_left_bound(),
            spec_right_bound(),
        ) as i64,
        y: spec_clamp(
            pos.y + dir_y * spec_step(dt_ms),
            spec_bottom_bound(),
            spec_top_bound(),
        ) as i64,
    }
}

/// One movement tick of the player from the four held direction keys,
/// clamped to the walls of the room.
pub fn move_player(pos: Vec2I, left: bool, right: bool, up: bool, down: bool, dt_ms: i64) -> (moved:
    Vec2I)
    requires
        0 <= dt_ms <= 10_000,
        -1_000_000 <= pos.x <= 1_000_000,
        -1_000_000 <= pos.y <= 1_000_000,
    ensures
        moved == spec_moved(
            pos,
            (if right { 1int } else { 0int }) - (if left { 1int } else { 0int }),
            (if up { 1int } else { 0int }) - (if down { 1int } else { 0int }),
            dt_ms as int,
        ),
{
    let mut dir_x: i64 = 0;
    let mut dir_y: i64 = 0;
    if left {
        dir_x = dir_x - 1;
    }
    if right {
        dir_x = dir_x + 1;
    }
    if up {
        dir_y = dir_y + 1;
    }
    if down {
        dir_y = dir_y - 1;
    }
    let step = PLAYER_SPEED * dt_ms / 1000;
    let new_x = pos.x + dir_x * step;
    let new_y = pos.y + dir_y * step;
    Vec2I {
        x: clamp_i64(
            new_x,
            LEFT_WALL + WALL_THICKNESS / 2 + PLAYER_SIZE / 2,
            RIGHT_WALL - WALL_THICKNESS / 2 - PLAYER_SIZE / 2,
        ),
        y: clamp_i64(
            new_y,
            BOTTOM_WALL + WALL_THICKNESS / 2 + PLAYER_SIZE / 2,
            TOP_WALL - WALL_THICKNESS / 2 - PLAYER_SIZE / 2,
        ),
    }
}

/// Law: wherever the player starts and whatever is held, after one movement
/// tick the player's center is inside the room's walls.
pub proof fn lemma_move_player_stays_inside(pos: Vec2I, dir_x: int, dir_y: int, dt_ms: int)
    ensures
        spec_left_bound() <= spec_moved(pos, dir_x, dir_y, dt_ms).x <= spec_right_bound(),
        spec_bottom_bound() <= spec_moved(pos, dir_x, dir_y, dt_ms).y <= spec_top_bound(),
{
}

} // verus!
