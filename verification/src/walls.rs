//! Walls: the four L-shaped corner segments of a room, each leaving half a
//! door's width of gap at the ends of its two faces.

use vstd::prelude::*;
use crate::constants::{
    BOTTOM_WALL, DOOR_WIDTH, LEFT_WALL, RIGHT_WALL, TOP_WALL, WALL_HEIGHT, WALL_THICKNESS,
    WALL_WIDTH,
};
use crate::math::{Anchor, ColorMilli, Vec2I};

verus! {

/// Which corner of the room a wall segment occupies.
#[derive(Clone, Copy, PartialEq, Eq, Structural, Debug)]
pub enum WallLocation {
    TopLeft,
    TopRight,
    BottomLeft,
    BottomRight,
}

impl WallLocation {
    /// Where this segment sits, for a room drawn at the given offset.
    pub open spec fn spec_position(self, offset_x: i64, offset_y: i64) -> Vec2I {
        match self {
            WallLocation::TopLeft => Vec2I {
                x: (LEFT_WALL + offset_x) as i64,
                y: (TOP_WALL + offset_y) as i64,
            },
            WallLocation::TopRight => Vec2I {
                x: (RIGHT_WALL + offset_x) as i64,
                y: (TOP_WALL + offset_y) as i64,
            },
            WallLocation::BottomLeft => Vec2I {
                x: (LEFT_WALL + offset_x) as i64,
                y: (BOTTOM_WALL + offset_y) as i64,
            },
            WallLocation::BottomRight => Vec2I {
                x: (RIGHT_WALL + offset_x) as i64,
                y: (BOTTOM_WALL + offset_y) as i64,
            },
        }
    }

    /// Where this segment sits, for a room drawn at the given offset.
    pub fn position(&self, offset_x: i64, offset_y: i64) -> (p: Vec2I)
        requires
            -1_000_000_000 <= offset_x <= 1_000_000_000,
            -1_000_000_000 <= offset_y <= 1_000_000_000,
        ensures
            p == self.spec_position(offset_x, offset_y),
    {
        match self {
            WallLocation::TopLeft => Vec2I { x: LEFT_WALL + offset_x, y: TOP_WALL + offset_y },
            WallLocation::TopRight => Vec2I { x: RIGHT_WALL + offset_x, y: TOP_WALL + offset_y },
            WallLocation::BottomLeft => Vec2I {
                x: LEFT_WALL + offset_x,
                y: BOTTOM_WALL + offset_y,
            },
            WallLocation::BottomRight => Vec2I {
                x: RIGHT_WALL + offset_x,
                y: BOTTOM_WALL + offset_y,
            },
        }
    }

    /// Which corner of the wall sprite sits on its position.
    pub open spec fn spec_anchor(self) -> Anchor {
        match self {
            WallLocation::TopLeft => Anchor::TopLeft,
            WallLocation::TopRight => Anchor::TopRight,
            WallLocation::BottomLeft => Anchor::BottomLeft,
            WallLocation::BottomRight => Anchor::BottomRight,
        }
    }

    /// Which corner of the wall sprite sits on its position.
    pub fn anchor(&self) -> (a: Anchor)
        ensures
            a == self.spec_anchor(),
    {
        match self {
            WallLocation::TopLeft => Anchor::TopLeft,
            WallLocation::TopRight => Anchor::TopRight,
            WallLocation::BottomLeft => Anchor::BottomLeft,
            WallLocation::BottomRight => Anchor::BottomRight,
        }
    }

    /// The segment's collision outline relative to its anchored corner: an
    /// L along the inner faces of its two walls, stopping half a door's
    /// width short at both ends so the doors stay passable.
    pub open spec fn spec_collider(self) -> Seq<Vec2I> {
        match self {
            WallLocation::BottomRight => seq![
                Vec2I { x: (-WALL_WIDTH + DOOR_WIDTH / 2) as i64, y: WALL_THICKNESS },
                Vec2I { x: (-WALL_THICKNESS) as i64, y: WALL_THICKNESS },
                Vec2I { x: (-WALL_THICKNESS) as i64, y: (WALL_HEIGHT - DOOR_WIDTH / 2) as i64 },
            ],
            WallLocation::BottomLeft => seq![
                Vec2I { x: (WALL_WIDTH - DOOR_WIDTH / 2) as i64, y: WALL_THICKNESS },
                Vec2I { x: WALL_THICKNESS, y: WALL_THICKNESS },
                Vec2I { x: WALL_THICKNESS, y: (WALL_HEIGHT - DOOR_WIDTH / 2) as i64 },
            ],
            WallLocation::TopRight => seq![
                Vec2I { x: (-WALL_WIDTH + DOOR_WIDTH / 2) as i64, y: (-WALL_THICKNESS) as i64 },
                Vec2I { x: (-WALL_THICKNESS) as i64, y: (-WALL_THICKNESS) as i64 },
                Vec2I { x: (-WALL_THICKNESS) as i64, y: (-WALL_HEIGHT + DOOR_WIDTH / 2) as i64 },
            ],
            WallLocation::TopLeft => seq![
                Vec2I { x: (WALL_WIDTH - DOOR_WIDTH / 2) as i64, y: (-WALL_THICKNESS) as i64 },
                Vec2I { x: WALL_THICKNESS, y: (-WALL_THICKNESS) as i64 },
                Vec2I { x: WALL_THICKNESS, y: (-WALL_HEIGHT + DOOR_WIDTH / 2) as i64 },
            ],
        }
    }

    /// The segment's collision outline relative to its anchored corner.
    pub fn collider(&self) -> (pts: Vec<Vec2I>)
        ensures
            pts@ == self.spec_collider(),
    {
        let mut pts: Vec<Vec2I> = Vec::new();
        match self {
            WallLocation::BottomRight => {
                pts.push(Vec2I { x: -WALL_WIDTH + DOOR_WIDTH / 2, y: WALL_THICKNESS });
                pts.push(Vec2I { x: -WALL_THICKNESS, y: WALL_THICKNESS });
                pts.push(Vec2I { x: -WALL_THICKNESS, y: WALL_HEIGHT - DOOR_WIDTH / 2 });
            },
            WallLocation::BottomLeft => {
                pts.push(Vec2I { x: WALL_WIDTH - DOOR_WIDTH / 2, y: WALL_THICKNESS });
                pts.push(Vec2I { x: WALL_THICKNESS, y: WALL_THICKNESS });
                pts.push(Vec2I { x: WALL_THICKNESS, y: WALL_HEIGHT - DOOR_WIDTH / 2 });
            },
            WallLocation::TopRight => {
                pts.push(Vec2I { x: -WALL_WIDTH + DOOR_WIDTH / 2, y: -WALL_THICKNESS });
                pts.push(Vec2I { x: -WALL_THICKNESS, y: -WALL_THICKNESS });
                pts.push(Vec2I { x: -WALL_THICKNESS, y: -WALL_HEIGHT + DOOR_WIDTH / 2 });
            },
            WallLocation::TopLeft => {
                pts.push(Vec2I { x: WALL_WIDTH - DOOR_WIDTH / 2, y: -WALL_THICKNESS });
                pts.push(Vec2I { x: WALL_THICKNESS, y: -WALL_THICKNESS });
                pts.push(Vec2I { x: WALL_THICKNESS, y: -WALL_HEIGHT + DOOR_WIDTH / 2 });
            },
        }
        proof {
            assert(pts@ =~= self.spec_collider());
        }
        pts
    }
}

/// Everything a lowered wall entity carries: a fixed body with the L-shaped
/// collision outline and the sprite that draws the segment.
#[derive(Clone, PartialEq, Eq, Debug)]
pub struct WallBundle {
    pub position: Vec2I,
    pub anchor: Anchor,
    pub color: ColorMilli,
    pub size: Vec2I,
    pub collider: Vec<Vec2I>,
}

impl WallBundle {
    /// The wall entity for one corner of a room drawn at the given offset.
    pub fn new(location: WallLocation, offset_x: i64, offset_y: i64) -> (b: WallBundle)
        requires
            -1_000_000_000 <= offset_x <= 1_000_000_000,
            -1_000_000_000 <= offset_y <= 1_000_000_000,
        ensures
            b.position == location.spec_position(offset_x, offset_y),
            b.anchor == location.spec_anchor(),
            b.color == (ColorMilli { r: 10, g: 10, b: 10 }),
            b.size == (Vec2I { x: WALL_WIDTH, y: WALL_HEIGHT }),
            b.collider@ == location.spec_collider(),
    {
        WallBundle {
            position: location.position(offset_x, offset_y),
            anchor: location.anchor(),
            color: crate::constants::wall_color(),
            size: Vec2I { x: WALL_WIDTH, y: WALL_HEIGHT },
            collider: location.collider(),
        }
    }
}

} // verus!
