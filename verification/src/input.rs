//! Turning raw key states into a movement axis.

use vstd::prelude::*;

verus! {

/// The movement direction four held keys add up to, each axis in
/// `{-1, 0, 1}`; `None` when no key has an effect.  Scaling the direction
/// to unit length for diagonal movement is the host's rendering-side work;
/// the decision of whether and where to move is made here.
pub fn input_as_axis(left: bool, right: bool, up: bool, down: bool) -> (axis: Option<(i64, i64)>)
    ensures
        ({
            let x = (if right { 1int } else { 0int }) - (if left { 1int } else { 0int });
            let y = (if up { 1int } else { 0int }) - (if down { 1int } else { 0int });
            axis == (if x == 0 && y == 0 {
                Option::<(i64, i64)>::None
            } else {
                Some((x as i64, y as i64))
            })
        }),
{
    let mut x: i64 = 0;
    let mut y: i64 = 0;
    if left {
        x = x - 1;
    }
    if right {
        x = x + 1;
    }
    if up {
        y = y + 1;
    }
    if down {
        y = y - 1;
    }
    if x == 0 && y == 0 {
        None
    } else {
        Some((x, y))
    }
}

} // verus!
