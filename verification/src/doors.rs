//! Doors: the gaps in a room's walls the player passes through.

use vstd::prelude::*;
use crate::constants::{BOTTOM_WALL, DOOR_WIDTH, LEFT_WALL, RIGHT_WALL, TOP_WALL};
use crate::math::{Anchor, ColorMilli, Vec2I};

verus! {

/// Which wall of the room a door sits in.
#[derive(Clone, Copy, PartialEq, Eq, Structural, Debug)]
pub enum Door {
    Left,
    Right,
    Bottom,
    Top,
}

impl Door {
    /// Where this door sits, for a room drawn at the given offset.
    pub open spec fn spec_position(self, offset_x: i64, offset_y: i64) -> Vec2I {
        match self {
            Door::Left => Vec2I { x: (LEFT_WALL + offset_x) as i64, y: offset_y },
            Door::Right => Vec2I { x: (RIGHT_WALL + offset_x) as i64, y: offset_y },
            Door::Bottom => Vec2I { x: offset_x, y: (BOTTOM_WALL + offset_y) as i64 },
            Door::Top => Vec2I { x: offset_x, y: (TOP_WALL + offset_y) as i64 },
        }
    }

    /// Where this door sits, for a room drawn at the given offset.
    pub fn position(&self, offset_x: i64, offset_y: i64) -> (p: Vec2I)
        requires
            -1_000_000_000 <= offset_x <= 1_000_000_000,
            -1_000_000_000 <= offset_y <= 1_000_000_000,
        ensures
            p == self.spec_position(offset_x, offset_y),
    {
        match self {
            Door::Left => Vec2I { x: LEFT_WALL + offset_x, y: offset_y },
            Door::Right => Vec2I { x: RIGHT_WALL + offset_x, y: offset_y },
            Door::Bottom => Vec2I { x: offset_x, y: BOTTOM_WALL + offset_y },
            Door::Top => Vec2I { x: offset_x, y: TOP_WALL + offset_y },
        }
    }

    /// Which edge of the door sprite sits on its position.
    pub open spec fn spec_anchor(self) -> Anchor {
        match self {
            Door::Left => Anchor::CenterLeft,
            Door::Right => Anchor::CenterRight,
            Door::Bottom => Anchor::BottomCenter,
            Door::Top => Anchor::TopCenter,
        }
    }

    /// Which edge of the door sprite sits on its position.
    pub fn anchor(&self) -> (a: Anchor)
        ensures
            a == self.spec_anchor(),
    {
        match self {
            Door::Left => Anchor::CenterLeft,
            Door::Right => Anchor::CenterRight,
            Door::Bottom => Anchor::BottomCenter,
            Door::Top => Anchor::TopCenter,
        }
    }

    /// The one-room step the player takes when touching this door.
    pub open spec fn spec_exit_delta(self) -> (i64, i64) {
        match self {
            Door::Left => (-1i64, 0i64),
            Door::Right => (1i64, 0i64),
            Door::Top => (0i64, 1i64),
            Door::Bottom => (0i64, -1i64),
        }
    }

    /// The one-room step the player takes when touching this door.
    pub fn exit_delta(&self) -> (d: (i64, i64))
        ensures
            d == self.spec_exit_delta(),
    {
        match self {
            Door::Left => (-1, 0),
            Door::Right => (1, 0),
            Door::Top => (0, 1),
            Door::Bottom => (0, -1),
        }
    }
}

/// Everything a lowered door entity carries: the sensor geometry and the
/// sprite that draws it.
#[derive(Clone, PartialEq, Eq, Debug)]
pub struct DoorBundle {
    pub door: Door,
    pub position: Vec2I,
    pub anchor: Anchor,
    pub color: ColorMilli,
    /// The square sprite's edge length.
    pub size: i64,
    /// The sensor collider's half extent on each axis.
    pub collider_half: i64,
}

impl DoorBundle {
    /// The door entity for a room drawn at the given offset: a fixed sensor
    /// square of [`DOOR_WIDTH`], anchored into its wall.
    pub fn new(location: Door, offset_x: i64, offset_y: i64) -> (b: DoorBundle)
        requires
            -1_000_000_000 <= offset_x <= 1_000_000_000,
            -1_000_000_000 <= offset_y <= 1_000_000_000,
        ensures
            b.door == location,
            b.position == location.spec_position(offset_x, offset_y),
            b.anchor == location.spec_anchor(),
            b.color == (ColorMilli { r: 1000, g: 0, b: 0 }),
            b.size == DOOR_WIDTH,
            b.collider_half == DOOR_WIDTH / 2,
    {
        let position = location.position(offset_x, offset_y);
        let anchor = location.anchor();
        DoorBundle {
            door: location,
            position,
            anchor,
            color: crate::constants::door_color(),
            size: DOOR_WIDTH,
            collider_half: DOOR_WIDTH / 2,
        }
    }
}

} // verus!
