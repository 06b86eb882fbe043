//! The per-frame reactive systems.
//!
//! The host engine owns input and change detection; each frame it hands the
//! library the entities whose interaction state changed, and these systems
//! swap in the matching precomputed snapshot — layout, background color and
//! text style — set the pointer cursor while any button is hot, and decide
//! which click handlers fire.  Everything here is a pure state copy; nothing
//! can fail.

use vstd::prelude::*;
use crate::elements::{InteractionBackgroundColor, InteractionStyle, InteractionTextStyle};
use crate::stylesheet::{Interaction, LayoutStyle, NodeStyle, Rgba, TextStyle, Visibility};
use crate::world::{NodeKind, TextSectionV, UiNode, UiNodeV, UiWorld};

verus! {

/// The layout snapshot matching an interaction state.
pub open spec fn spec_layout_snapshot(st: InteractionStyle, s: Interaction) -> LayoutStyle {
    match s {
        Interaction::Normal => st.none,
        Interaction::Hovered => st.hover,
        Interaction::Pressed => st.pressed,
    }
}

/// The background snapshot matching an interaction state.
pub open spec fn spec_background_snapshot(st: InteractionBackgroundColor, s: Interaction) -> Rgba {
    match s {
        Interaction::Normal => st.none,
        Interaction::Hovered => st.hover,
        Interaction::Pressed => st.pressed,
    }
}

/// The text-style snapshot matching an interaction state.
pub open spec fn spec_text_snapshot(st: InteractionTextStyle, s: Interaction) -> TextStyle {
    match s {
        Interaction::Normal => st.none,
        Interaction::Hovered => st.hover,
        Interaction::Pressed => st.pressed,
    }
}

/// A node after the layout system visited it: on a node that tracks an
/// interaction state and carries layout snapshots, the current layout is
/// overwritten with the snapshot matching the state; any other node is left
/// alone.
pub open spec fn spec_style_refreshed(n: UiNodeV) -> UiNodeV {
    if n.interaction is Some && n.styles is Some {
        UiNodeV {
            style: NodeStyle {
                layout: spec_layout_snapshot(n.styles->0, n.interaction->0),
                ..n.style
            },
            ..n
        }
    } else {
        n
    }
}

/// A node after the background system visited it.
pub open spec fn spec_background_refreshed(n: UiNodeV) -> UiNodeV {
    if n.interaction is Some && n.backgrounds is Some {
        UiNodeV {
            style: NodeStyle {
                background: spec_background_snapshot(n.backgrounds->0, n.interaction->0),
                ..n.style
            },
            ..n
        }
    } else {
        n
    }
}

/// A node after the text system visited it: every section's style is
/// overwritten with the matching snapshot.
pub open spec fn spec_text_refreshed(n: UiNodeV) -> UiNodeV {
    if n.interaction is Some && n.text_styles is Some {
        UiNodeV {
            sections: n.sections.map_values(
                |sec: TextSectionV|
                    TextSectionV {
                        style: spec_text_snapshot(n.text_styles->0, n.interaction->0),
                        ..sec
                    },
            ),
            ..n
        }
    } else {
        n
    }
}

/// Set the interaction state of one node that tracks one.  The host engine
/// calls this as its hit-testing reports changes.
pub fn set_interaction(world: &mut UiWorld, id: usize, s: Interaction)
    requires
        id < old(world)@.len(),
    ensures
        final(world)@ == old(world)@.update(
            id as int,
            (UiNodeV { interaction: Some(s), ..old(world)@[id as int] }),
        ),
{
    let ghost pre = world@;
    let n = crate::world::node_at_mut(&mut world.nodes, id);
    n.interaction = Some(s);
    proof {
        assert(world@ =~= pre.update(id as int, (UiNodeV { interaction: Some(s), ..pre[id as int] })));
    }
}

/// Overwrite one node's layout with the snapshot matching its interaction
/// state, if it tracks one and carries snapshots.
fn refresh_style_node(n: &mut UiNode)
    ensures
        final(n)@ == spec_style_refreshed(old(n)@),
{
    let inter_opt = n.interaction;
    let styles_opt = n.styles;
    match (inter_opt, styles_opt) {
        (Some(it), Some(st)) => {
            let l = match it {
                Interaction::Normal => st.none,
                Interaction::Hovered => st.hover,
                Interaction::Pressed => st.pressed,
            };
            n.style.layout = l;
        },
        _ => {
        },
    }
}

/// Overwrite one node's background with the snapshot matching its
/// interaction state, if it tracks one and carries snapshots.
fn refresh_background_node(n: &mut UiNode)
    ensures
        final(n)@ == spec_background_refreshed(old(n)@),
{
    let inter_opt = n.interaction;
    let bg_opt = n.backgrounds;
    match (inter_opt, bg_opt) {
        (Some(it), Some(st)) => {
            let b = match it {
                Interaction::Normal => st.none,
                Interaction::Hovered => st.hover,
                Interaction::Pressed => st.pressed,
            };
            n.style.background = b;
        },
        _ => {
        },
    }
}

/// Overwrite each changed entity's layout style with the snapshot matching
/// its current interaction state.
pub fn interaction_style_system(world: &mut UiWorld, changed: &Vec<usize>)
    requires
        forall|k: int| 0 <= k < changed@.len() ==> (#[trigger] changed@[k]) < old(world)@.len(),
    ensures
        final(world)@.len() == old(world)@.len(),
        forall|i: int|
            0 <= i < old(world)@.len() ==> final(world)@[i] == (if changed@.contains(i as usize) {
                spec_style_refreshed(old(world)@[i])
            } else {
                old(world)@[i]
            }),
{
    let ghost pre = world@;
    let n_total = world.nodes.len();
    let mut k: usize = 0;
    while k < changed.len()
        invariant
            k <= changed@.len(),
            world@.len() == pre.len(),
            pre.len() == n_total,
            forall|q: int| 0 <= q < changed@.len() ==> (#[trigger] changed@[q]) < pre.len(),
            forall|i: int|
                0 <= i < pre.len() ==> world@[i] == (if changed@.subrange(
                    0,
                    k as int,
                ).contains(i as usize) {
                    spec_style_refreshed(pre[i])
                } else {
                    pre[i]
                }),
        decreases changed@.len() - k,
    {
        let id = changed[k];
        let ghost mid = world@;
        let n = crate::world::node_at_mut(&mut world.nodes, id);
        refresh_style_node(n);
        proof {
            assert(world@ =~= mid.update(id as int, spec_style_refreshed(mid[id as int])));
            assert(mid[id as int] == (if changed@.subrange(0, k as int).contains(id) {
                spec_style_refreshed(pre[id as int])
            } else {
                pre[id as int]
            }));
            assert(spec_style_refreshed(mid[id as int]) == spec_style_refreshed(pre[id as int]));
            assert(changed@.subrange(0, (k + 1) as int) =~= changed@.subrange(0, k as int).push(
                changed@[k as int],
            ));
            assert forall|i: int|
                0 <= i < pre.len() implies world@[i] == (if changed@.subrange(
                0,
                (k + 1) as int,
            ).contains(i as usize) {
                spec_style_refreshed(pre[i])
            } else {
                pre[i]
            }) by {
                let sub1 = changed@.subrange(0, (k + 1) as int);
                let sub0 = changed@.subrange(0, k as int);
                assert(sub1.len() == k + 1);
                assert(sub1[k as int] == changed@[k as int]);
                assert(forall|w: int| 0 <= w < k ==> sub1[w] == #[trigger] sub0[w]);
                assert(mid[i] == (if sub0.contains(i as usize) {
                    spec_style_refreshed(pre[i])
                } else {
                    pre[i]
                }));
                if i == id as int {
                    assert(sub1[k as int] == i as usize);
                    assert(sub1.contains(i as usize));
                    assert(world@[i] == spec_style_refreshed(mid[i]));
                    assert(world@[i] == spec_style_refreshed(pre[i]));
                } else {
                    assert(world@[i] == mid[i]);
                    if sub1.contains(i as usize) {
                        let w = choose|w: int| 0 <= w < sub1.len() && sub1[w] == i as usize;
                        assert(w != k);
                        assert(sub0[w] == i as usize);
                        assert(sub0.contains(i as usize));
                        assert(world@[i] == spec_style_refreshed(pre[i]));
                    } else {
                        assert(!sub0.contains(i as usize)) by {
                            if sub0.contains(i as usize) {
                                let w = choose|w: int| 0 <= w < sub0.len() && sub0[w] == i as usize;
                                assert(sub1[w] == i as usize);
                            }
                        }
                        assert(world@[i] == pre[i]);
                    }
                }
            }
        }
        k += 1;
    }
    proof {
        assert(changed@.subrange(0, changed@.len() as int) =~= changed@);
    }
}

/// Overwrite each changed entity's background color with the snapshot
/// matching its current interaction state.
pub fn interaction_background_color_system(world: &mut UiWorld, changed: &Vec<usize>)
    requires
        forall|k: int| 0 <= k < changed@.len() ==> (#[trigger] changed@[k]) < old(world)@.len(),
    ensures
        final(world)@.len() == old(world)@.len(),
        forall|i: int|
            0 <= i < old(world)@.len() ==> final(world)@[i] == (if changed@.contains(i as usize) {
                spec_background_refreshed(old(world)@[i])
            } else {
                old(world)@[i]
            }),
{
    let ghost pre = world@;
    let n_total = world.nodes.len();
    let mut k: usize = 0;
    while k < changed.len()
        invariant
            k <= changed@.len(),
            world@.len() == pre.len(),
            pre.len() == n_total,
            forall|q: int| 0 <= q < changed@.len() ==> (#[trigger] changed@[q]) < pre.len(),
            forall|i: int|
                0 <= i < pre.len() ==> world@[i] == (if changed@.subrange(
                    0,
                    k as int,
                ).contains(i as usize) {
                    spec_background_refreshed(pre[i])
                } else {
                    pre[i]
                }),
        decreases changed@.len() - k,
    {
        let id = changed[k];
        let ghost mid = world@;
        let n = crate::world::node_at_mut(&mut world.nodes, id);
        refresh_background_node(n);
        proof {
            assert(world@ =~= mid.update(id as int, spec_background_refreshed(mid[id as int])));
            assert(mid[id as int] == (if changed@.subrange(0, k as int).contains(id) {
                spec_background_refreshed(pre[id as int])
            } else {
                pre[id as int]
            }));
            assert(spec_background_refreshed(mid[id as int]) == spec_background_refreshed(
                pre[id as int],
            ));
            assert(changed@.subrange(0, (k + 1) as int) =~= changed@.subrange(0, k as int).push(
                changed@[k as int],
            ));
            assert forall|i: int|
                0 <= i < pre.len() implies world@[i] == (if changed@.subrange(
                0,
                (k + 1) as int,
            ).contains(i as usize) {
                spec_background_refreshed(pre[i])
            } else {
                pre[i]
            }) by {
                let sub1 = changed@.subrange(0, (k + 1) as int);
                let sub0 = changed@.subrange(0, k as int);
                assert(sub1.len() == k + 1);
                assert(sub1[k as int] == changed@[k as int]);
                assert(forall|w: int| 0 <= w < k ==> sub1[w] == #[trigger] sub0[w]);
                assert(mid[i] == (if sub0.contains(i as usize) {
                    spec_background_refreshed(pre[i])
                } else {
                    pre[i]
                }));
                if i == id as int {
                    assert(sub1[k as int] == i as usize);
                    assert(sub1.contains(i as usize));
                    assert(world@[i] == spec_background_refreshed(mid[i]));
                    assert(world@[i] == spec_background_refreshed(pre[i]));
                } else {
                    assert(world@[i] == mid[i]);
                    if sub1.contains(i as usize) {
                        let w = choose|w: int| 0 <= w < sub1.len() && sub1[w] == i as usize;
                        assert(w != k);
                        assert(sub0[w] == i as usize);
                        assert(sub0.contains(i as usize));
                        assert(world@[i] == spec_background_refreshed(pre[i]));
                    } else {
                        assert(!sub0.contains(i as usize)) by {
                            if sub0.contains(i as usize) {
                                let w = choose|w: int| 0 <= w < sub0.len() && sub0[w] == i as usize;
                                assert(sub1[w] == i as usize);
                            }
                        }
                        assert(world@[i] == pre[i]);
                    }
                }
            }
        }
        k += 1;
    }
    proof {
        assert(changed@.subrange(0, changed@.len() as int) =~= changed@);
    }
}

/// Overwrite every section's style of one text node with the snapshot
/// matching the node's current interaction state.
fn refresh_text_node(n: &mut UiNode)
    ensures
        final(n)@ == spec_text_refreshed(old(n)@),
{
    let inter_opt = n.interaction;
    let styles_opt = n.text_styles;
    match (inter_opt, styles_opt) {
        (Some(it), Some(st)) => {
            let ts = match it {
                Interaction::Normal => st.none,
                Interaction::Hovered => st.hover,
                Interaction::Pressed => st.pressed,
            };
            let mut j: usize = 0;
            while j < n.sections.len()
                invariant
                    j <= n.sections@.len(),
                    n.sections@.len() == old(n).sections@.len(),
                    n.alive == old(n).alive,
                    n.parent == old(n).parent,
                    n.kind == old(n).kind,
                    n.interaction == old(n).interaction,
                    n.style == old(n).style,
                    n.styles == old(n).styles,
                    n.backgrounds == old(n).backgrounds,
                    n.text_styles == old(n).text_styles,
                    n.texture == old(n).texture,
                    n.material == old(n).material,
                    n.tags == old(n).tags,
                    ts == spec_text_snapshot(old(n)@.text_styles->0, old(n)@.interaction->0),
                    forall|q: int|
                        0 <= q < j ==> (#[trigger] n.sections@[q]).style == ts && n.sections@[q].text
                            == old(n).sections@[q].text,
                    forall|q: int|
                        j <= q < n.sections@.len() ==> (#[trigger] n.sections@[q]) == old(
                            n,
                        ).sections@[q],
                decreases n.sections@.len() - j,
            {
                let s = &mut n.sections[j];
                s.style = ts;
                j += 1;
            }
            proof {
                assert(final(n)@.sections =~= spec_text_refreshed(old(n)@).sections);
            }
        },
        _ => {
        },
    }
}

/// Overwrite each changed entity's per-section text style with the snapshot
/// matching its current interaction state.
pub fn interaction_text_style_system(world: &mut UiWorld, changed: &Vec<usize>)
    requires
        forall|k: int| 0 <= k < changed@.len() ==> (#[trigger] changed@[k]) < old(world)@.len(),
    ensures
        final(world)@.len() == old(world)@.len(),
        forall|i: int|
            0 <= i < old(world)@.len() ==> final(world)@[i] == (if changed@.contains(i as usize) {
                spec_text_refreshed(old(world)@[i])
            } else {
                old(world)@[i]
            }),
{
    let ghost pre = world@;
    let n_total = world.nodes.len();
    let mut k: usize = 0;
    while k < changed.len()
        invariant
            k <= changed@.len(),
            world@.len() == pre.len(),
            pre.len() == n_total,
            forall|q: int| 0 <= q < changed@.len() ==> (#[trigger] changed@[q]) < pre.len(),
            forall|i: int|
                0 <= i < pre.len() ==> world@[i] == (if changed@.subrange(
                    0,
                    k as int,
                ).contains(i as usize) {
                    spec_text_refreshed(pre[i])
                } else {
                    pre[i]
                }),
        decreases changed@.len() - k,
    {
        let id = changed[k];
        let ghost mid = world@;
        let n = crate::world::node_at_mut(&mut world.nodes, id);
        refresh_text_node(n);
        proof {
            assert(world@ =~= mid.update(id as int, spec_text_refreshed(mid[id as int])));
            assert(spec_text_refreshed(mid[id as int]) == spec_text_refreshed(pre[id as int]))
                by {
                if mid[id as int].interaction is Some && mid[id as int].text_styles is Some {
                    assert(mid[id as int].sections =~= pre[id as int].sections
                        || mid[id as int] == spec_text_refreshed(pre[id as int]));
                    if mid[id as int] == spec_text_refreshed(pre[id as int]) {
                        assert(spec_text_refreshed(mid[id as int]).sections =~= spec_text_refreshed(
                            pre[id as int],
                        ).sections);
                    }
                }
            }
            assert(changed@.subrange(0, (k + 1) as int) =~= changed@.subrange(0, k as int).push(
                changed@[k as int],
            ));
            assert forall|i: int|
                0 <= i < pre.len() implies world@[i] == (if changed@.subrange(
                0,
                (k + 1) as int,
            ).contains(i as usize) {
                spec_text_refreshed(pre[i])
            } else {
                pre[i]
            }) by {
                let sub1 = changed@.subrange(0, (k + 1) as int);
                let sub0 = changed@.subrange(0, k as int);
                assert(sub1.len() == k + 1);
                assert(sub1[k as int] == changed@[k as int]);
                assert(forall|w: int| 0 <= w < k ==> sub1[w] == #[trigger] sub0[w]);
                assert(mid[i] == (if sub0.contains(i as usize) {
                    spec_text_refreshed(pre[i])
                } else {
                    pre[i]
                }));
                if i == id as int {
                    assert(sub1[k as int] == i as usize);
                    assert(sub1.contains(i as usize));
                    assert(world@[i] == spec_text_refreshed(mid[i]));
                    assert(world@[i] == spec_text_refreshed(pre[i]));
                } else {
                    assert(world@[i] == mid[i]);
                    if sub1.contains(i as usize) {
                        let w = choose|w: int| 0 <= w < sub1.len() && sub1[w] == i as usize;
                        assert(w != k);
                        assert(sub0[w] == i as usize);
                        assert(sub0.contains(i as usize));
                        assert(world@[i] == spec_text_refreshed(pre[i]));
                    } else {
                        assert(!sub0.contains(i as usize)) by {
                            if sub0.contains(i as usize) {
                                let w = choose|w: int| 0 <= w < sub0.len() && sub0[w] == i as usize;
                                assert(sub1[w] == i as usize);
                            }
                        }
                        assert(world@[i] == pre[i]);
                    }
                }
            }
        }
        k += 1;
    }
    proof {
        assert(changed@.subrange(0, changed@.len() as int) =~= changed@);
    }
}

/// Whether a node makes the platform cursor a pointer: a live button that is
/// hovered or pressed.
pub open spec fn spec_pointer_candidate(n: UiNodeV) -> bool {
    &&& n.alive
    &&& n.kind is Button
    &&& (n.interaction == Some(Interaction::Hovered) || n.interaction == Some(
        Interaction::Pressed,
    ))
}

/// Whether the platform cursor should show a pointer this frame: true if and
/// only if some live button entity is currently hovered or pressed.
pub fn cursor_wants_pointer(world: &UiWorld) -> (b: bool)
    ensures
        b == exists|i: int| 0 <= i < world@.len() && spec_pointer_candidate(#[trigger] world@[i]),
{
    let mut i: usize = 0;
    let len = world.nodes.len();
    while i < len
        invariant
            i <= len,
            len == world@.len(),
            forall|q: int| 0 <= q < i ==> !spec_pointer_candidate(#[trigger] world@[q]),
        decreases len - i,
    {
        let is_button = match world.nodes[i].kind {
            NodeKind::Button => true,
            _ => false,
        };
        let hot = match world.nodes[i].interaction {
            Some(Interaction::Hovered) => true,
            Some(Interaction::Pressed) => true,
            _ => false,
        };
        if world.nodes[i].alive && is_button && hot {
            proof {
                assert(world@[i as int] == world.nodes@[i as int]@);
                assert(spec_pointer_candidate(world@[i as int]));
            }
            return true;
        }
        i += 1;
    }
    false
}

/// Set the visibility of every node carrying `tag`; used to show or hide a
/// whole overlay without despawning it.
pub fn set_visibility_tagged(world: &mut UiWorld, tag: u64, vis: Visibility)
    ensures
        final(world)@.len() == old(world)@.len(),
        forall|i: int|
            0 <= i < old(world)@.len() ==> final(world)@[i] == (if old(
                world,
            )@[i].tags.contains(tag) {
                (UiNodeV {
                    style: NodeStyle { visibility: vis, ..old(world)@[i].style },
                    ..old(world)@[i]
                })
            } else {
                old(world)@[i]
            }),
{
    let ghost pre = world@;
    let len = world.nodes.len();
    let mut i: usize = 0;
    while i < len
        invariant
            i <= len,
            len == world@.len(),
            len == pre.len(),
            forall|q: int|
                0 <= q < i ==> world@[q] == (if pre[q].tags.contains(tag) {
                    (UiNodeV { style: NodeStyle { visibility: vis, ..pre[q].style }, ..pre[q] })
                } else {
                    pre[q]
                }),
            forall|q: int| i <= q < len ==> world@[q] == pre[q],
        decreases len - i,
    {
        let tagged = crate::world::node_has_tag(&world.nodes[i], tag);
        if tagged {
            let ghost mid = world@;
            let n = crate::world::node_at_mut(&mut world.nodes, i);
            n.style.visibility = vis;
            proof {
                assert(world@ =~= mid.update(
                    i as int,
                    (UiNodeV { style: NodeStyle { visibility: vis, ..pre[i as int].style }, ..pre[i as int] }),
                ));
            }
        }
        i += 1;
    }
}

/// One entity whose interaction state changed this frame, as the host
/// engine's change detection reports it.
#[derive(Clone, Copy, PartialEq, Eq, Structural, Debug)]
pub struct InteractionChange {
    pub entity: usize,
    pub previous: Interaction,
    pub current: Interaction,
}

/// Law: a click fires if and only if, within one frame, the entity left the
/// pressed state for the hovered state — a completed press — and the left
/// mouse button's just-released edge is set.  Pressing without releasing,
/// or releasing while not hovered, never fires.
pub open spec fn spec_click_fires(
    previous: Interaction,
    current: Interaction,
    left_just_released: bool,
) -> bool {
    previous is Pressed && current is Hovered && left_just_released
}

/// Whether one interaction change is a completed click.
pub fn click_fired(previous: Interaction, current: Interaction, left_just_released: bool) -> (b:
    bool)
    ensures
        b == spec_click_fires(previous, current, left_just_released),
{
    let was_pressed = match previous {
        Interaction::Pressed => true,
        _ => false,
    };
    let now_hovered = match current {
        Interaction::Hovered => true,
        _ => false,
    };
    was_pressed && now_hovered && left_just_released
}

/// Whether a change fires the click handler of component `tag`: the entity
/// must be live, carry the tag, and have completed a click this frame.
pub open spec fn spec_click_target(
    nodes: Seq<UiNodeV>,
    c: InteractionChange,
    tag: u64,
    left_just_released: bool,
) -> bool {
    &&& (c.entity as int) < nodes.len()
    &&& nodes[c.entity as int].alive
    &&& nodes[c.entity as int].tags.contains(tag)
    &&& spec_click_fires(c.previous, c.current, left_just_released)
}

/// The entities whose click handlers fire, in the order the changes came.
pub open spec fn spec_clicked(
    nodes: Seq<UiNodeV>,
    changes: Seq<InteractionChange>,
    tag: u64,
    left_just_released: bool,
) -> Seq<usize>
    decreases changes.len(),
{
    if changes.len() == 0 {
        Seq::empty()
    } else {
        let rest = spec_clicked(nodes, changes.drop_first(), tag, left_just_released);
        if spec_click_target(nodes, changes[0], tag, left_just_released) {
            seq![changes[0].entity] + rest
        } else {
            rest
        }
    }
}

/// The per-frame click system for one clickable component type `tag`: from
/// this frame's interaction changes, the entities whose handlers fire, in
/// order.  The caller invokes its effect closure once per returned entity.
pub fn run_click_system(
    world: &UiWorld,
    changes: &Vec<InteractionChange>,
    tag: u64,
    left_just_released: bool,
) -> (fired: Vec<usize>)
    ensures
        fired@ == spec_clicked(world@, changes@, tag, left_just_released),
{
    let mut fired: Vec<usize> = Vec::new();
    let mut k: usize = 0;
    proof {
        assert(changes@.subrange(0, changes@.len() as int) =~= changes@);
        assert(fired@ + spec_clicked(world@, changes@, tag, left_just_released) =~= spec_clicked(
            world@,
            changes@,
            tag,
            left_just_released,
        ));
    }
    while k < changes.len()
        invariant
            k <= changes@.len(),
            fired@ + spec_clicked(
                world@,
                changes@.subrange(k as int, changes@.len() as int),
                tag,
                left_just_released,
            ) == spec_clicked(world@, changes@, tag, left_just_released),
        decreases changes@.len() - k,
    {
        let c = changes[k];
        let ghost rest = changes@.subrange(k as int, changes@.len() as int);
        proof {
            assert(rest.drop_first() =~= changes@.subrange((k + 1) as int, changes@.len() as int));
            assert(rest[0] == changes@[k as int]);
        }
        let mut is_target = false;
        if c.entity < world.nodes.len() {
            if world.nodes[c.entity].alive {
                if crate::world::node_has_tag(&world.nodes[c.entity], tag) {
                    if click_fired(c.previous, c.current, left_just_released) {
                        is_target = true;
                    }
                }
            }
        }
        if is_target {
            let ghost fired0 = fired@;
            fired.push(c.entity);
            proof {
                assert(fired@ =~= fired0.push(c.entity));
                assert(fired0.push(c.entity) + spec_clicked(
                    world@,
                    rest.drop_first(),
                    tag,
                    left_just_released,
                ) =~= fired0 + (seq![c.entity] + spec_clicked(
                    world@,
                    rest.drop_first(),
                    tag,
                    left_just_released,
                )));
            }
        }
        k += 1;
    }
    proof {
        assert(changes@.subrange(changes@.len() as int, changes@.len() as int)
            =~= Seq::<InteractionChange>::empty());
        assert(fired@ + Seq::<usize>::empty() =~= fired@);
    }
    fired
}

/// Law: the click system fires an entity's handler exactly when some change
/// this frame reports that entity leaving pressed for hovered while the left
/// button was just released, on a live entity carrying the component.
pub proof fn lemma_click_requires_hover_release(
    nodes: Seq<UiNodeV>,
    changes: Seq<InteractionChange>,
    tag: u64,
    left_just_released: bool,
)
    ensures
        forall|e: usize|
            spec_clicked(nodes, changes, tag, left_just_released).contains(e) == exists|k: int|
                0 <= k < changes.len() && (#[trigger] changes[k]).entity == e && spec_click_target(
                    nodes,
                    changes[k],
                    tag,
                    left_just_released,
                ),
    decreases changes.len(),
{
    if changes.len() == 0 {
    } else {
        lemma_click_requires_hover_release(nodes, changes.drop_first(), tag, left_just_released);
        assert forall|e: usize|
            spec_clicked(nodes, changes, tag, left_just_released).contains(e) == exists|k: int|
                0 <= k < changes.len() && (#[trigger] changes[k]).entity == e && spec_click_target(
                    nodes,
                    changes[k],
                    tag,
                    left_just_released,
                ) by {
            let whole = spec_clicked(nodes, changes, tag, left_just_released);
            let rest = spec_clicked(nodes, changes.drop_first(), tag, left_just_released);
            if whole.contains(e) {
                let w = choose|w: int| 0 <= w < whole.len() && whole[w] == e;
                if spec_click_target(nodes, changes[0], tag, left_just_released) {
                    if w == 0 {
                        assert(changes[0].entity == e);
                    } else {
                        assert(rest.contains(e));
                        let k0 = choose|k0: int|
                            0 <= k0 < changes.drop_first().len() && (#[trigger] changes.drop_first()[k0]).entity
                                == e && spec_click_target(
                                nodes,
                                changes.drop_first()[k0],
                                tag,
                                left_just_released,
                            );
                        assert(changes[k0 + 1].entity == e && spec_click_target(
                            nodes,
                            changes[k0 + 1],
                            tag,
                            left_just_released,
                        ));
                    }
                } else {
                    assert(rest.contains(e));
                    let k0 = choose|k0: int|
                        0 <= k0 < changes.drop_first().len() && (#[trigger] changes.drop_first()[k0]).entity
                            == e && spec_click_target(
                            nodes,
                            changes.drop_first()[k0],
                            tag,
                            left_just_released,
                        );
                    assert(changes[k0 + 1].entity == e && spec_click_target(
                        nodes,
                        changes[k0 + 1],
                        tag,
                        left_just_released,
                    ));
                }
            }
            if exists|k: int|
                0 <= k < changes.len() && (#[trigger] changes[k]).entity == e && spec_click_target(
                    nodes,
                    changes[k],
                    tag,
                    left_just_released,
                ) {
                let k = choose|k: int|
                    0 <= k < changes.len() && (#[trigger] changes[k]).entity == e
                        && spec_click_target(nodes, changes[k], tag, left_just_released);
                if k == 0 {
                    assert(whole[0] == e);
                } else {
                    assert(changes.drop_first()[k - 1].entity == e && spec_click_target(
                        nodes,
                        changes.drop_first()[k - 1],
                        tag,
                        left_just_released,
                    ));
                    assert(rest.contains(e));
                    let w = choose|w: int| 0 <= w < rest.len() && rest[w] == e;
                    if spec_click_target(nodes, changes[0], tag, left_just_released) {
                        assert(whole[w + 1] == e);
                    } else {
                        assert(whole[w] == e);
                    }
                }
            }
        }
    }
}

} // verus!
