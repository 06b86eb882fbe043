//! The player's inventory and the rule for using the active item.

use vstd::prelude::*;
use crate::items::ItemEvent;
use crate::math::Vec2I;

verus! {

/// What the player carries: one hand, two hands, or a revolving queue of
/// item entities.
#[derive(Clone, PartialEq, Eq, Debug)]
pub enum Inventory {
    /// One slot that may hold an item entity.
    OneHanded(Option<u64>),
    /// An active slot that may hold an item, and a fixed off-hand item.
    DoubleHanded(Option<u64>, u64),
    /// A queue of item entities; the front one is the active chamber.
    Revolver(Vec<u64>),
}

/// A queue rotated one step left: the front item moves to the back.
pub open spec fn spec_rotated(s: Seq<u64>) -> Seq<u64> {
    if s.len() == 0 {
        s
    } else {
        s.drop_first().push(s[0])
    }
}

/// The item entity that fires when the inventory is used: the active slot's
/// item, or the revolver's front chamber.
pub open spec fn spec_active_item(inv: Inventory) -> Option<u64> {
    match inv {
        Inventory::OneHanded(slot) => slot,
        Inventory::DoubleHanded(slot, _) => slot,
        Inventory::Revolver(chambers) => if chambers@.len() == 0 {
            None
        } else {
            Some(chambers@[0])
        },
    }
}

/// Use the active item: the active slot's item fires, if there is one.  A
/// revolver additionally rotates one chamber — whether or not the chamber
/// that fired was empty; an empty click still turns the cylinder.
pub fn use_active_item(inv: &mut Inventory) -> (fired: Option<u64>)
    ensures
        fired == spec_active_item(*old(inv)),
        match *old(inv) {
            Inventory::Revolver(chambers) => *final(inv) matches Inventory::Revolver(after)
                && after@ == spec_rotated(chambers@),
            _ => *final(inv) == *old(inv),
        },
{
    match inv {
        Inventory::OneHanded(slot) => *slot,
        Inventory::DoubleHanded(slot, _) => *slot,
        Inventory::Revolver(chambers) => {
            if chambers.len() == 0 {
                None
            } else {
                let front = chambers.remove(0);
                chambers.push(front);
                proof {
                    assert(chambers@ =~= spec_rotated(old(inv)->Revolver_0@));
                }
                Some(front)
            }
        },
    }
}

/// Law: using a revolver always rotates the cylinder, and using it
/// repeatedly cycles through every chamber — after as many uses as there
/// are chambers, the cylinder is back where it started.
pub proof fn lemma_revolver_rotation_cycles(s: Seq<u64>)
    ensures
        spec_rotated(s).len() == s.len(),
        s.len() > 0 ==> spec_rotated(s)[s.len() - 1] == s[0],
        forall|j: int| 0 <= j < s.len() - 1 ==> spec_rotated(s)[j] == s[j + 1],
{
}

/// What pressing the use key does: with the key down, the active item of
/// the inventory fires as a `Used` event at the player's position and
/// facing, and the inventory rotates as usual; without it, nothing happens.
pub fn use_item_player(
    space_pressed: bool,
    inv: &mut Inventory,
    position: Vec2I,
    direction: Vec2I,
) -> (event: Option<ItemEvent>)
    ensures
        !space_pressed ==> event is None && *final(inv) == *old(inv),
        space_pressed ==> {
            &&& (match spec_active_item(*old(inv)) {
                Some(entity) => event == Some(ItemEvent::Used { entity, position, direction }),
                None => event is None,
            })
            &&& (match *old(inv) {
                Inventory::Revolver(chambers) => *final(inv) matches Inventory::Revolver(after)
                    && after@ == spec_rotated(chambers@),
                _ => *final(inv) == *old(inv),
            })
        },
{
    if !space_pressed {
        return None;
    }
    let fired = use_active_item(inv);
    match fired {
        Some(entity) => Some(ItemEvent::Used { entity, position, direction }),
        None => None,
    }
}

} // verus!
