//! Rooms: the rectangular spaces the player moves through, each bounded by
//! four corner wall segments with a door in the middle of every side.

use vstd::prelude::*;
use crate::constants::{FLOOR_HEIGHT, FLOOR_WIDTH};
use crate::doors::{Door, DoorBundle};
use crate::math::Vec2I;
use crate::walls::{WallBundle, WallLocation};

verus! {

/// One room of the dungeon: its grid coordinate, its floor extent and the
/// texture path its floor is drawn with.
#[derive(Debug)]
pub struct Room {
    pub coord_x: i64,
    pub coord_y: i64,
    pub width: i64,
    pub height: i64,
    pub floor: String,
}

/// Everything spawning one room creates: four corner walls, the floor
/// sprite, and four door sensors.
#[derive(Debug)]
pub struct RoomSpawn {
    pub walls: Vec<WallBundle>,
    pub floor_texture: String,
    pub floor_size: Vec2I,
    pub doors: Vec<DoorBundle>,
}

impl Room {
    /// A room of the standard floor extent at a grid coordinate.
    pub fn new(coord_x: i64, coord_y: i64, floor: String) -> (r: Room)
        ensures
            r.coord_x == coord_x,
            r.coord_y == coord_y,
            r.width == FLOOR_WIDTH,
            r.height == FLOOR_HEIGHT,
            r.floor == floor,
    {
        Room { coord_x, coord_y, width: FLOOR_WIDTH, height: FLOOR_HEIGHT, floor }
    }

    /// Everything the room spawns when drawn at the given offset: its four
    /// corner walls, its floor, and its four doors, in a fixed order.
    pub fn spawn(&self, offset_x: i64, offset_y: i64) -> (s: RoomSpawn)
        requires
            -1_000_000_000 <= offset_x <= 1_000_000_000,
            -1_000_000_000 <= offset_y <= 1_000_000_000,
        ensures
            s.walls@.len() == 4,
            s.walls@[0].position == WallLocation::TopRight.spec_position(offset_x, offset_y),
            s.walls@[0].collider@ == WallLocation::TopRight.spec_collider(),
            s.walls@[1].position == WallLocation::TopLeft.spec_position(offset_x, offset_y),
            s.walls@[1].collider@ == WallLocation::TopLeft.spec_collider(),
            s.walls@[2].position == WallLocation::BottomRight.spec_position(offset_x, offset_y),
            s.walls@[2].collider@ == WallLocation::BottomRight.spec_collider(),
            s.walls@[3].position == WallLocation::BottomLeft.spec_position(offset_x, offset_y),
            s.walls@[3].collider@ == WallLocation::BottomLeft.spec_collider(),
            s.floor_texture@ == self.floor@,
            s.floor_size == (Vec2I { x: self.width, y: self.height }),
            s.doors@.len() == 4,
            s.doors@[0].door == Door::Left,
            s.doors@[1].door == Door::Right,
            s.doors@[2].door == Door::Bottom,
            s.doors@[3].door == Door::Top,
            forall|k: int|
                0 <= k < 4 ==> (#[trigger] s.doors@[k]).position == s.doors@[k].door.spec_position(
                    offset_x,
                    offset_y,
                ),
    {
        let mut walls: Vec<WallBundle> = Vec::new();
        walls.push(WallBundle::new(WallLocation::TopRight, offset_x, offset_y));
        walls.push(WallBundle::new(WallLocation::TopLeft, offset_x, offset_y));
        walls.push(WallBundle::new(WallLocation::BottomRight, offset_x, offset_y));
        walls.push(WallBundle::new(WallLocation::BottomLeft, offset_x, offset_y));
        let mut doors: Vec<DoorBundle> = Vec::new();
        doors.push(DoorBundle::new(Door::Left, offset_x, offset_y));
        doors.push(DoorBundle::new(Door::Right, offset_x, offset_y));
        doors.push(DoorBundle::new(Door::Bottom, offset_x, offset_y));
        doors.push(DoorBundle::new(Door::Top, offset_x, offset_y));
        RoomSpawn {
            walls,
            floor_texture: self.floor.clone(),
            floor_size: Vec2I { x: self.width, y: self.height },
            doors,
        }
    }
}

} // verus!
