//! Items and bullets: the components they carry and the arithmetic that
//! moves a bullet along its trajectory and retires it at the end of its
//! lifespan.

use vstd::prelude::*;
use crate::math::Vec2I;

verus! {

/// What happened to an item this frame.
#[derive(Clone, Copy, PartialEq, Eq, Structural, Debug)]
pub enum ItemEvent {
    /// The item entity was used at a position, facing a direction.
    Used { entity: u64, position: Vec2I, direction: Vec2I },
    /// The item entity was dropped at a position.
    Dropped { entity: u64, position: Vec2I },
}

/// The marker component of every item entity.
#[derive(Clone, Copy, PartialEq, Eq, Structural, Debug)]
pub struct Item;

/// Milliseconds until an item may be used again.
#[derive(Clone, Copy, PartialEq, Eq, Structural, Debug)]
pub struct Cooldown(pub u32);

/// A display name.
#[derive(Debug)]
pub struct Name(pub String);

/// The marker component of every bullet entity.
#[derive(Clone, Copy, PartialEq, Eq, Structural, Debug)]
pub struct Bullet;

/// One waypoint of a trajectory: a position and the fraction of the
/// lifetime, in thousandths, at which the bullet passes it.
#[derive(Clone, Copy, PartialEq, Eq, Structural, Debug)]
pub struct TrajectorySegment(pub Vec2I, pub u32);

/// The path a bullet follows over its lifetime.
#[derive(Clone, PartialEq, Eq, Debug)]
pub struct Trajectory(pub Vec<TrajectorySegment>);

impl Trajectory {
    /// A straight path: from `start`, along `direction` scaled by `length`,
    /// covering the whole lifetime.
    pub fn straight(start: Vec2I, direction: Vec2I, length: i64) -> (t: Trajectory)
        requires
            -1_000_000 <= start.x <= 1_000_000,
            -1_000_000 <= start.y <= 1_000_000,
            -1_000 <= direction.x <= 1_000,
            -1_000 <= direction.y <= 1_000,
            0 <= length <= 1_000_000,
        ensures
            t.0@.len() == 2,
            t.0@[0] == TrajectorySegment(start, 0),
            t.0@[1] == TrajectorySegment(
                (Vec2I {
                    x: (start.x + direction.x * length) as i64,
                    y: (start.y + direction.y * length) as i64,
                }),
                1000,
            ),
    {
        proof {
            assert(-1_000_000_000 <= direction.x * length <= 1_000_000_000) by (nonlinear_arith)
                requires
                    -1_000 <= direction.x <= 1_000,
                    0 <= length <= 1_000_000,
            ;
            assert(-1_000_000_000 <= direction.y * length <= 1_000_000_000) by (nonlinear_arith)
                requires
                    -1_000 <= direction.y <= 1_000,
                    0 <= length <= 1_000_000,
            ;
        }
        let end = Vec2I { x: start.x + direction.x * length, y: start.y + direction.y * length };
        let mut points: Vec<TrajectorySegment> = Vec::new();
        points.push(TrajectorySegment(start, 0));
        points.push(TrajectorySegment(end, 1000));
        Trajectory(points)
    }
}

/// How long a bullet has lived and how long it gets to live, both in
/// milliseconds.
#[derive(Clone, Copy, PartialEq, Eq, Structural, Debug)]
pub struct Lifetime {
    pub current: u32,
    pub lifespan: u32,
}

/// Age a lifetime by one frame; reports whether it has run out, at which
/// point the owner is despawned.
pub fn tick_lifetime(l: &mut Lifetime, dt_ms: u32) -> (expired: bool)
    requires
        old(l).current + dt_ms <= u32::MAX,
    ensures
        final(l).current == old(l).current + dt_ms,
        final(l).lifespan == old(l).lifespan,
        expired == (final(l).current >= final(l).lifespan),
{
    l.current = l.current + dt_ms;
    l.current >= l.lifespan
}

/// Whether every waypoint's coordinates are small enough for the position
/// interpolation to stay within range.
pub open spec fn spec_points_bounded(points: Seq<TrajectorySegment>) -> bool {
    forall|k: int|
        0 <= k < points.len() ==> {
            &&& -1_000_000_000 <= (#[trigger] points[k]).0.x <= 1_000_000_000
            &&& -1_000_000_000 <= points[k].0.y <= 1_000_000_000
            &&& points[k].1 <= 1_000_000
        }
}

/// The first waypoint index whose time is at or past `t`, or the number of
/// waypoints when `t` is past them all.
pub open spec fn spec_segment_at(points: Seq<TrajectorySegment>, t: int) -> int
    decreases points.len(),
{
    if points.len() == 0 {
        0
    } else if t <= points[0].1 {
        0
    } else {
        1 + spec_segment_at(points.drop_first(), t)
    }
}

/// One axis of the interpolation: `from` plus the bracket fraction of the
/// way toward `to`, rounded toward `from`.
pub open spec fn spec_lerp_axis(from: int, to: int, num: int, den: int) -> int {
    if to >= from {
        from + (to - from) * num / den
    } else {
        from - (from - to) * num / den
    }
}

/// Where a bullet stands at lifetime fraction `t` (in thousandths): linear
/// interpolation between the two waypoints around `t`, or nothing while the
/// trajectory gives it no bracket (fewer than two relevant waypoints, or a
/// zero-length time bracket).
pub open spec fn spec_bullet_position(points: Seq<TrajectorySegment>, t: int) -> Option<Vec2I> {
    let k = spec_segment_at(points, t);
    if k == 0 || k >= points.len() {
        None
    } else {
        let from = points[k - 1];
        let to = points[k];
        if to.1 <= from.1 || t < from.1 {
            None
        } else {
            let num = t - from.1;
            let den = to.1 - from.1;
            Some(
                Vec2I {
                    x: spec_lerp_axis(from.0.x as int, to.0.x as int, num, den) as i64,
                    y: spec_lerp_axis(from.0.y as int, to.0.y as int, num, den) as i64,
                },
            )
        }
    }
}

/// One movement tick of a bullet: the fraction of its lifetime that has
/// passed, in thousandths, picks the bracketing waypoints, and the new
/// position interpolates between them.  While the bullet is past its last
/// waypoint, before its first, or inside a zero-length bracket, it stays
/// where it is (`None`).
pub fn move_bullet(trajectory: &Trajectory, lifetime: &Lifetime) -> (pos: Option<Vec2I>)
    requires
        lifetime.lifespan > 0,
        lifetime.current <= 1_000_000,
        spec_points_bounded(trajectory.0@),
    ensures
        pos == spec_bullet_position(
            trajectory.0@,
            lifetime.current as int * 1000 / lifetime.lifespan as int,
        ),
{
    let t_wide: u64 = (lifetime.current as u64) * 1000 / (lifetime.lifespan as u64);
    let points = &trajectory.0;
    let ghost t = lifetime.current as int * 1000 / lifetime.lifespan as int;
    proof {
        assert(t_wide == t);
        assert(t <= 1_000_000_000);
    }
    let len = points.len();
    let mut k: usize = 0;
    proof {
        assert(points@.subrange(0, len as int) =~= points@);
    }
    while k < len && t_wide > points[k].1 as u64
        invariant
            k <= len,
            len == points@.len(),
            t_wide == t,
            0 <= t <= 1_000_000_000,
            spec_points_bounded(points@),
            spec_segment_at(points@, t) == k + spec_segment_at(
                points@.subrange(k as int, len as int),
                t,
            ),
            forall|j: int| 0 <= j < k ==> t > (#[trigger] points@[j]).1,
        decreases len - k,
    {
        let ghost rest = points@.subrange(k as int, len as int);
        proof {
            assert(rest[0] == points@[k as int]);
            assert(rest.drop_first() =~= points@.subrange(k + 1, len as int));
        }
        k += 1;
    }
    proof {
        if k < len {
            let rest = points@.subrange(k as int, len as int);
            assert(rest[0] == points@[k as int]);
            assert(spec_segment_at(rest, t) == 0);
        } else {
            assert(points@.subrange(len as int, len as int)
                =~= Seq::<TrajectorySegment>::empty());
        }
        assert(spec_segment_at(points@, t) == k);
    }
    if k == 0 || k >= len {
        return None;
    }
    let from = points[k - 1];
    let to = points[k];
    if to.1 <= from.1 {
        return None;
    }
    proof {
        assert(t > from.1);
    }
    let num: u64 = t_wide - from.1 as u64;
    let den: u64 = (to.1 - from.1) as u64;
    let x = lerp_axis(from.0.x, to.0.x, num, den);
    let y = lerp_axis(from.0.y, to.0.y, num, den);
    Some(Vec2I { x, y })
}

/// One axis of the interpolation, rounded toward `from`.
fn lerp_axis(from: i64, to: i64, num: u64, den: u64) -> (r: i64)
    requires
        -1_000_000_000 <= from <= 1_000_000_000,
        -1_000_000_000 <= to <= 1_000_000_000,
        0 < den <= 1_000_000,
        num <= 1_000_000_000,
    ensures
        r == spec_lerp_axis(from as int, to as int, num as int, den as int),
{
    if to >= from {
        let diff: u64 = (to - from) as u64;
        proof {
            assert(diff as int * num as int <= 2_000_000_000 * 1_000_000_000) by (nonlinear_arith)
                requires
                    0 <= diff as int <= 2_000_000_000,
                    0 <= num as int <= 1_000_000_000,
            ;
        }
        let scaled: u64 = diff * num / den;
        proof {
            assert(scaled as int <= diff as int * num as int);
        }
        from + scaled as i64
    } else {
        let diff: u64 = (from - to) as u64;
        proof {
            assert(diff as int * num as int <= 2_000_000_000 * 1_000_000_000) by (nonlinear_arith)
                requires
                    0 <= diff as int <= 2_000_000_000,
                    0 <= num as int <= 1_000_000_000,
            ;
        }
        let scaled: u64 = diff * num / den;
        proof {
            assert(scaled as int <= diff as int * num as int);
        }
        from - scaled as i64
    }
}

} // verus!
