//! The bullet-firing item: each use of an entity carrying it spawns a
//! bullet flying straight ahead.

use vstd::prelude::*;
use crate::items::{ItemEvent, Lifetime, Trajectory, TrajectorySegment};
use crate::math::Vec2I;

verus! {

/// The marker component of items that fire a plain bullet.
#[derive(Clone, Copy, PartialEq, Eq, Structural, Debug)]
pub struct CasualBulletItem;

/// How far a fired bullet flies, in pixels.
pub const BULLET_RANGE: i64 = 1000;

/// How long a fired bullet lives, in milliseconds.
pub const BULLET_LIFESPAN_MS: u32 = 2000;

/// Everything one fired bullet spawns with.
#[derive(Clone, PartialEq, Eq, Debug)]
pub struct BulletSpawn {
    pub position: Vec2I,
    pub direction: Vec2I,
    pub trajectory: Trajectory,
    pub lifetime: Lifetime,
    /// The bullet sprite's edge length.
    pub sprite_size: i64,
}

/// Whether an event is a bounded `Used` event, so the spawned trajectory's
/// arithmetic stays in range.
pub open spec fn spec_usable_event(e: ItemEvent) -> bool {
    e matches ItemEvent::Used { position, direction, .. } && {
        &&& -1_000_000 <= position.x <= 1_000_000
        &&& -1_000_000 <= position.y <= 1_000_000
        &&& -1_000 <= direction.x <= 1_000
        &&& -1_000 <= direction.y <= 1_000
    }
}

/// Handle one item event for this item kind: a `Used` event whose entity
/// carries [`CasualBulletItem`] spawns one bullet at the use position,
/// flying the use direction for [`BULLET_RANGE`] pixels over a
/// [`BULLET_LIFESPAN_MS`] lifespan; any other event spawns nothing.
pub fn use_item(event: &ItemEvent, bullet_items: &Vec<u64>) -> (spawn: Option<BulletSpawn>)
    requires
        spec_usable_event(*event) || !(*event matches ItemEvent::Used { .. }),
    ensures
        match *event {
            ItemEvent::Used { entity, position, direction } => {
                &&& (spawn is Some <==> bullet_items@.contains(entity))
                &&& (spawn matches Some(b) ==> {
                    &&& b.position == position
                    &&& b.direction == direction
                    &&& b.lifetime == (Lifetime { current: 0, lifespan: BULLET_LIFESPAN_MS })
                    &&& b.sprite_size == 64
                    &&& b.trajectory.0@.len() == 2
                    &&& b.trajectory.0@[0] == TrajectorySegment(position, 0)
                    &&& b.trajectory.0@[1] == TrajectorySegment(
                        (Vec2I {
                            x: (position.x + direction.x * BULLET_RANGE) as i64,
                            y: (position.y + direction.y * BULLET_RANGE) as i64,
                        }),
                        1000,
                    )
                })
            },
            ItemEvent::Dropped { .. } => spawn is None,
        },
{
    match event {
        ItemEvent::Used { entity, position, direction } => {
            let mut found = false;
            let mut i: usize = 0;
            while i < bullet_items.len()
                invariant
                    i <= bullet_items@.len(),
                    found ==> bullet_items@.contains(*entity),
                    !found ==> forall|j: int| 0 <= j < i ==> bullet_items@[j] != *entity,
                decreases bullet_items@.len() - i,
            {
                if bullet_items[i] == *entity {
                    found = true;
                    proof {
                        assert(bullet_items@[i as int] == *entity);
                    }
                }
                i += 1;
            }
            proof {
                if !found {
                    assert(!bullet_items@.contains(*entity)) by {
                        if bullet_items@.contains(*entity) {
                            let w = choose|w: int|
                                0 <= w < bullet_items@.len() && bullet_items@[w] == *entity;
                            assert(bullet_items@[w] != *entity);
                        }
                    }
                }
            }
            if found {
                Some(
                    BulletSpawn {
                        position: *position,
                        direction: *direction,
                        trajectory: Trajectory::straight(*position, *direction, BULLET_RANGE),
                        lifetime: Lifetime { current: 0, lifespan: BULLET_LIFESPAN_MS },
                        sprite_size: 64,
                    },
                )
            } else {
                None
            }
        },
        ItemEvent::Dropped { .. } => None,
    }
}

} // verus!
