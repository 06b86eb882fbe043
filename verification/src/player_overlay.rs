//! The player overlay: a row of heart icons showing the player's life,
//! each drawn by a custom outline material.

use vstd::prelude::*;
use crate::atoms;
use crate::elements::{Element, as_el, div, mat, spec_node_data};
use crate::stylesheet::{Atom, PadEdge, Phase, Rgba, StyleEntry, Val, spec_node_default, spec_rgb};

verus! {

/// The class list of one heart icon: a fixed 48-pixel square.
pub open spec fn spec_heart_class() -> Seq<StyleEntry> {
    seq![
        StyleEntry { phase: Phase::Base, atom: Atom::Height(Val::Px(48)) },
        StyleEntry { phase: Phase::Base, atom: Atom::Width(Val::Px(48)) },
    ]
}

/// One heart icon: a material node in the heart class, tagged with the
/// heart's component so the life system can find it.
pub fn mat_heart(heart_tag: u64, material: u64) -> (el: Element)
    ensures
        el matches Element::Tagged(t, inner) && t == heart_tag && (*inner matches Element::Dynamic(
            d,
            cs,
        ) && d.material == material && d.styles == crate::elements::spec_style_snapshots(
            spec_heart_class(),
            spec_node_default(),
        ) && cs@.len() == 0),
{
    let mut c: Vec<StyleEntry> = Vec::new();
    c.push(atoms::h_12());
    c.push(atoms::w_12());
    proof {
        assert(c@ =~= spec_heart_class());
    }
    as_el(heart_tag, mat(&c, material))
}

/// The class list of the heart row.
pub open spec fn spec_overlay_class() -> Seq<StyleEntry> {
    seq![
        StyleEntry { phase: Phase::Base, atom: Atom::Flex },
        StyleEntry { phase: Phase::Base, atom: Atom::Padding(PadEdge::All, 16) },
    ]
}

/// The overlay's element tree: a padded row of three hearts, one per
/// possible point of life, each with its own tag and material.
pub fn player_overlay_tree(heart_tags: (u64, u64, u64), materials: (u64, u64, u64)) -> (el:
    Element)
    ensures
        el matches Element::Div(d, cs) && d == spec_node_data(
            spec_overlay_class(),
            spec_node_default(),
        ) && cs@.len() == 3 && (cs@[0] matches Element::Tagged(t0, _) && t0 == heart_tags.0)
            && (cs@[1] matches Element::Tagged(t1, _) && t1 == heart_tags.1) && (cs@[2] matches
            Element::Tagged(t2, _) && t2 == heart_tags.2),
{
    let mut children: Vec<Element> = Vec::new();
    children.push(mat_heart(heart_tags.0, materials.0));
    children.push(mat_heart(heart_tags.1, materials.1));
    children.push(mat_heart(heart_tags.2, materials.2));
    let mut c: Vec<StyleEntry> = Vec::new();
    c.push(atoms::flex());
    c.push(atoms::p_4());
    proof {
        assert(c@ =~= spec_overlay_class());
    }
    div(&c, children)
}

/// The tint one heart's material takes for a given life: hearts above the
/// player's remaining life go black, the rest stay white.
pub open spec fn spec_heart_tint(life: u32, heart: u32) -> Rgba {
    if life < heart {
        spec_rgb(0, 0, 0)
    } else {
        spec_rgb(255, 255, 255)
    }
}

/// The material tints to apply after the player's life changed: for each
/// `(heart number, material handle)` pair, the handle with the tint that
/// heart takes.
pub fn update_life(life: u32, hearts: &Vec<(u32, u64)>) -> (tints: Vec<(u64, Rgba)>)
    ensures
        tints@.len() == hearts@.len(),
        forall|k: int|
            0 <= k < hearts@.len() ==> (#[trigger] tints@[k]).0 == hearts@[k].1 && tints@[k].1
                == spec_heart_tint(life, hearts@[k].0),
{
    let mut tints: Vec<(u64, Rgba)> = Vec::new();
    let mut i: usize = 0;
    while i < hearts.len()
        invariant
            i <= hearts@.len(),
            tints@.len() == i,
            forall|k: int|
                0 <= k < i ==> (#[trigger] tints@[k]).0 == hearts@[k].1 && tints@[k].1
                    == spec_heart_tint(life, hearts@[k].0),
        decreases hearts@.len() - i,
    {
        let (n, handle) = hearts[i];
        let tint = if life < n {
            crate::stylesheet::black()
        } else {
            crate::stylesheet::white()
        };
        tints.push((handle, tint));
        i += 1;
    }
    tints
}

} // verus!
