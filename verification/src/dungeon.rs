//! The dungeon: a grid of rooms and the coordinate the player is in.

use vstd::prelude::*;
use crate::constants::{HEIGHT, WIDTH};
use crate::rooms::{Room, RoomSpawn};

verus! {

/// The dungeon's rooms and the player's current room coordinate.
#[derive(Debug)]
pub struct Dungeon {
    pub layout: Vec<Room>,
    pub current_room_x: i64,
    pub current_room_y: i64,
}

/// The first index of a room at `(x, y)`, or -1 when no room is there.
pub open spec fn spec_find_room(rooms: Seq<Room>, x: int, y: int) -> int
    decreases rooms.len(),
{
    if rooms.len() == 0 {
        -1
    } else if rooms[0].coord_x == x && rooms[0].coord_y == y {
        0
    } else {
        let r = spec_find_room(rooms.drop_first(), x, y);
        if r == -1 {
            -1
        } else {
            r + 1
        }
    }
}

/// A room search lands at -1 or at a valid index whose room matches.
pub proof fn lemma_find_room_range(rooms: Seq<Room>, x: int, y: int)
    ensures
        -1 <= spec_find_room(rooms, x, y) < rooms.len(),
        spec_find_room(rooms, x, y) >= 0 ==> rooms[spec_find_room(rooms, x, y)].coord_x == x
            && rooms[spec_find_room(rooms, x, y)].coord_y == y,
    decreases rooms.len(),
{
    if rooms.len() > 0 && !(rooms[0].coord_x == x && rooms[0].coord_y == y) {
        lemma_find_room_range(rooms.drop_first(), x, y);
    }
}

impl Dungeon {
    /// The starting dungeon: two rooms stacked vertically, the player in
    /// the lower one.
    pub fn new() -> (d: Dungeon)
        ensures
            d.layout@.len() == 2,
            d.layout@[0].coord_x == 0 && d.layout@[0].coord_y == 0,
            d.layout@[1].coord_x == 0 && d.layout@[1].coord_y == 1,
            d.current_room_x == 0,
            d.current_room_y == 0,
    {
        let mut layout: Vec<Room> = Vec::new();
        layout.push(Room::new(0, 0, String::from_str("textures/wooden-floor.png")));
        layout.push(Room::new(0, 1, String::from_str("textures/wooden-floor.png")));
        Dungeon { layout, current_room_x: 0, current_room_y: 0 }
    }

    /// The room the player is in, if the layout has one at the current
    /// coordinate: the first such room, or nothing.
    pub fn get_current_room(&self) -> (r: Option<&Room>)
        ensures
            r is Some <==> spec_find_room(
                self.layout@,
                self.current_room_x as int,
                self.current_room_y as int,
            ) >= 0,
            r matches Some(room) ==> *room == self.layout@[spec_find_room(
                self.layout@,
                self.current_room_x as int,
                self.current_room_y as int,
            )],
    {
        let mut i: usize = 0;
        let len = self.layout.len();
        proof {
            assert(self.layout@.subrange(0, len as int) =~= self.layout@);
        }
        while i < len
            invariant
                i <= len,
                len == self.layout@.len(),
                spec_find_room(
                    self.layout@,
                    self.current_room_x as int,
                    self.current_room_y as int,
                ) == (if spec_find_room(
                    self.layout@.subrange(i as int, len as int),
                    self.current_room_x as int,
                    self.current_room_y as int,
                ) == -1 {
                    -1int
                } else {
                    i + spec_find_room(
                        self.layout@.subrange(i as int, len as int),
                        self.current_room_x as int,
                        self.current_room_y as int,
                    )
                }),
            decreases len - i,
        {
            let ghost rest = self.layout@.subrange(i as int, len as int);
            let ghost cx = self.current_room_x as int;
            let ghost cy = self.current_room_y as int;
            proof {
                assert(rest.drop_first() =~= self.layout@.subrange(i + 1, len as int));
                assert(rest[0] == self.layout@[i as int]);
            }
            if self.layout[i].coord_x == self.current_room_x && self.layout[i].coord_y
                == self.current_room_y {
                proof {
                    assert(spec_find_room(rest, cx, cy) == 0);
                }
                return Some(&self.layout[i]);
            }
            proof {
                lemma_find_room_range(rest.drop_first(), cx, cy);
                assert(spec_find_room(rest, cx, cy) == (if spec_find_room(
                    rest.drop_first(),
                    cx,
                    cy,
                ) == -1 {
                    -1int
                } else {
                    1 + spec_find_room(rest.drop_first(), cx, cy)
                }));
            }
            i += 1;
        }
        proof {
            assert(self.layout@.subrange(len as int, len as int) =~= Seq::<Room>::empty());
        }
        None
    }
}

/// Step the dungeon one room in the given direction and, if the layout has
/// a room there, produce what spawning it at its screen offset creates.
pub fn move_rooms(dungeon: &mut Dungeon, delta_x: i64, delta_y: i64) -> (spawned: Option<RoomSpawn>)
    requires
        -1000 <= old(dungeon).current_room_x + delta_x <= 1000,
        -1000 <= old(dungeon).current_room_y + delta_y <= 1000,
        -1 <= delta_x <= 1,
        -1 <= delta_y <= 1,
    ensures
        final(dungeon).layout == old(dungeon).layout,
        final(dungeon).current_room_x == old(dungeon).current_room_x + delta_x,
        final(dungeon).current_room_y == old(dungeon).current_room_y + delta_y,
        spawned is Some <==> spec_find_room(
            old(dungeon).layout@,
            old(dungeon).current_room_x + delta_x,
            old(dungeon).current_room_y + delta_y,
        ) >= 0,
{
    dungeon.current_room_x = dungeon.current_room_x + delta_x;
    dungeon.current_room_y = dungeon.current_room_y + delta_y;
    let room = dungeon.get_current_room();
    match room {
        Some(room) => Some(room.spawn(WIDTH * delta_x, HEIGHT * delta_y)),
        None => None,
    }
}

} // verus!
