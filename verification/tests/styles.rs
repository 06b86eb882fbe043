//! Behavior of the styling core: class resolution, element building,
//! lowering, despawning, the reactive systems and click dispatch.

use styles::atoms;
use styles::elements::{div, fragment, text, Element};
use styles::interact::{
    click_fired, cursor_wants_pointer, interaction_background_color_system,
    interaction_style_system, interaction_text_style_system, run_click_system, set_interaction,
    set_visibility_tagged, InteractionChange,
};
use styles::stylesheet::{
    apply_node, hover_, pressed_, resolve_node, rgb_u8, Atom, Interaction, NodeStyle, PadEdge,
    StyleEntry, Val,
};
use styles::stylesheet::Visibility;
use styles::world::{
    despawn_recursive, despawn_tagged, spawn_element, spawn_list, spawn_root_element, UiWorld,
};

fn menu_class() -> Vec<StyleEntry> {
    vec![
        atoms::flex(),
        atoms::w_full(),
        atoms::bg_white(),
        hover_(atoms::bg_red_600()),
        pressed_(atoms::bg_red_800()),
    ]
}

#[test]
fn scenario_a_resolves_per_state() {
    let class = menu_class();
    let normal = resolve_node(&class, Interaction::Normal, NodeStyle::default());
    let hovered = resolve_node(&class, Interaction::Hovered, NodeStyle::default());
    let pressed = resolve_node(&class, Interaction::Pressed, NodeStyle::default());
    assert_eq!(normal.background, rgb_u8(255, 255, 255));
    assert_eq!(hovered.background, rgb_u8(220, 38, 38));
    assert_eq!(pressed.background, rgb_u8(153, 27, 27));
    assert_eq!(normal.layout.width, Val::Percent(100));
    assert_eq!(hovered.layout.width, Val::Percent(100));
    assert_eq!(pressed.layout.width, Val::Percent(100));
}

#[test]
fn scenario_c_last_background_wins() {
    let class = vec![atoms::bg_red_300(), atoms::bg_red_700()];
    let normal = resolve_node(&class, Interaction::Normal, NodeStyle::default());
    assert_eq!(normal.background, rgb_u8(185, 28, 28));
    assert_ne!(normal.background, rgb_u8(252, 165, 165));
}

#[test]
fn resolution_is_monotonic_across_states() {
    // The hovered style is the normal style with the hover-tagged atoms
    // additionally applied, and likewise for pressed.
    let class = menu_class();
    let normal = resolve_node(&class, Interaction::Normal, NodeStyle::default());
    let hovered = resolve_node(&class, Interaction::Hovered, NodeStyle::default());
    let pressed = resolve_node(&class, Interaction::Pressed, NodeStyle::default());
    let hover_delta = apply_node(normal, Atom::BgColor(rgb_u8(220, 38, 38)));
    assert_eq!(hovered, hover_delta);
    let pressed_delta = apply_node(hovered, Atom::BgColor(rgb_u8(153, 27, 27)));
    assert_eq!(pressed, pressed_delta);
}

#[test]
fn atom_application_is_idempotent() {
    let base = NodeStyle::default();
    for atom in [
        Atom::Flex,
        Atom::FlexCol,
        Atom::Width(Val::Percent(100)),
        Atom::BgColor(rgb_u8(220, 38, 38)),
        Atom::Padding(PadEdge::All, 16),
        Atom::Invisible,
    ] {
        let once = apply_node(base, atom);
        let twice = apply_node(once, atom);
        assert_eq!(once, twice);
    }
}

#[test]
fn later_atom_wins_on_same_field() {
    let base = NodeStyle::default();
    let a = Atom::Width(Val::Px(48));
    let b = Atom::Width(Val::Percent(100));
    assert_eq!(apply_node(apply_node(base, a), b), apply_node(base, b));
    let a = Atom::Padding(PadEdge::Left, 4);
    let b = Atom::Padding(PadEdge::Left, 32);
    assert_eq!(apply_node(apply_node(base, a), b), apply_node(base, b));
}

fn small_children() -> Vec<Element> {
    let class: Vec<StyleEntry> = vec![atoms::flex()];
    vec![
        div(&class, Vec::new()),
        text(&vec![atoms::text_2xl()], String::from("hello")),
    ]
}

#[test]
fn fragment_lowers_transparently() {
    // Lowering a fragment leaves exactly the nodes that lowering each child
    // under the same parent leaves, and returns the parent id.
    let mut with_fragment = UiWorld::new();
    let root = spawn_root_element(&mut with_fragment, 7, fragment(Vec::new()));
    let id = spawn_element(&mut with_fragment, root, fragment(small_children()));
    assert_eq!(id, root);

    let mut without_fragment = UiWorld::new();
    let root2 = spawn_root_element(&mut without_fragment, 7, fragment(Vec::new()));
    spawn_list(&mut without_fragment, root2, small_children());

    assert_eq!(with_fragment.nodes.len(), without_fragment.nodes.len());
    for (a, b) in with_fragment.nodes.iter().zip(without_fragment.nodes.iter()) {
        assert_eq!(a.alive, b.alive);
        assert_eq!(a.parent, b.parent);
        assert_eq!(a.kind, b.kind);
        assert_eq!(a.style, b.style);
        assert_eq!(a.tags, b.tags);
    }
}

#[test]
fn scenario_b_despawn_takes_whole_screen() {
    // A quit button lowered under a root tagged as the menu screen; after
    // the despawn of that tag, no entity of the screen remains alive.
    let menu_tag = 1u64;
    let quit_tag = 3u64;
    let tree = styles::main_menu::main_menu_tree(2, quit_tag);
    let mut world = UiWorld::new();
    let root = spawn_root_element(&mut world, menu_tag, tree);
    assert!(world.nodes.len() > 4);
    assert!(world.nodes.iter().all(|n| n.alive));
    assert!(world.nodes[root].tags.contains(&menu_tag));
    assert!(world
        .nodes
        .iter()
        .any(|n| n.tags.contains(&quit_tag)));

    despawn_tagged(&mut world, menu_tag);
    // The whole screen descends from the tagged root, so nothing survives:
    // no entity carrying the tag, and no descendant of one.
    assert!(world.nodes.iter().all(|n| !n.alive));
}

#[test]
fn despawn_leaves_other_screens_alone() {
    let mut world = UiWorld::new();
    let class: Vec<StyleEntry> = vec![atoms::flex()];
    spawn_root_element(&mut world, 1, div(&class, Vec::new()));
    let other_root = spawn_root_element(&mut world, 2, div(&class, Vec::new()));
    despawn_tagged(&mut world, 1);
    assert!(world.nodes[other_root].alive);
    assert!(world.nodes[other_root + 1].alive);
    assert!(!world.nodes[0].alive);
    assert!(!world.nodes[1].alive);
}

#[test]
fn click_requires_hover_and_release() {
    // Fires only on pressed -> hovered with the release edge set.
    assert!(click_fired(Interaction::Pressed, Interaction::Hovered, true));
    assert!(!click_fired(Interaction::Pressed, Interaction::Hovered, false));
    assert!(!click_fired(Interaction::Normal, Interaction::Hovered, true));
    assert!(!click_fired(Interaction::Pressed, Interaction::Normal, true));
    assert!(!click_fired(Interaction::Hovered, Interaction::Pressed, true));
}

#[test]
fn click_system_fires_for_tagged_button() {
    let quit_tag = 3u64;
    let tree = styles::main_menu::main_menu_tree(2, quit_tag);
    let mut world = UiWorld::new();
    spawn_root_element(&mut world, 1, tree);
    let button_id = world
        .nodes
        .iter()
        .position(|n| n.tags.contains(&quit_tag))
        .unwrap();
    let change = InteractionChange {
        entity: button_id,
        previous: Interaction::Pressed,
        current: Interaction::Hovered,
    };
    let fired = run_click_system(&world, &vec![change], quit_tag, true);
    assert_eq!(fired, vec![button_id]);
    // Releasing while not hovered never fires.
    let miss = InteractionChange {
        entity: button_id,
        previous: Interaction::Pressed,
        current: Interaction::Normal,
    };
    assert!(run_click_system(&world, &vec![miss], quit_tag, true).is_empty());
    // Pressing without releasing never fires.
    assert!(run_click_system(&world, &vec![change], quit_tag, false).is_empty());
}

#[test]
fn reactive_systems_swap_snapshots() {
    let quit_tag = 3u64;
    let tree = styles::main_menu::main_menu_tree(2, quit_tag);
    let mut world = UiWorld::new();
    spawn_root_element(&mut world, 1, tree);
    let button_id = world
        .nodes
        .iter()
        .position(|n| n.tags.contains(&quit_tag))
        .unwrap();
    assert_eq!(world.nodes[button_id].style.background, rgb_u8(255, 255, 255));

    set_interaction(&mut world, button_id, Interaction::Hovered);
    let changed = vec![button_id];
    interaction_style_system(&mut world, &changed);
    interaction_background_color_system(&mut world, &changed);
    assert_eq!(world.nodes[button_id].style.background, rgb_u8(220, 38, 38));
    assert!(cursor_wants_pointer(&world));

    set_interaction(&mut world, button_id, Interaction::Pressed);
    interaction_background_color_system(&mut world, &changed);
    assert_eq!(world.nodes[button_id].style.background, rgb_u8(153, 27, 27));

    set_interaction(&mut world, button_id, Interaction::Normal);
    interaction_background_color_system(&mut world, &changed);
    assert_eq!(world.nodes[button_id].style.background, rgb_u8(255, 255, 255));
    assert!(!cursor_wants_pointer(&world));
}

#[test]
fn image_and_material_elements_carry_their_handles() {
    let class: Vec<StyleEntry> = vec![atoms::w_16(), atoms::h_16()];
    match styles::elements::img(&class, 77) {
        Element::Image(d) => {
            assert_eq!(d.texture, 77);
            assert_eq!(d.node.bundle.layout.width, Val::Px(64));
        }
        _ => panic!("img must lower to an image element"),
    }
    match styles::elements::mat(&class, 88) {
        Element::Dynamic(d, children) => {
            assert_eq!(d.material, 88);
            assert_eq!(d.bundle.layout.height, Val::Px(64));
            assert!(children.is_empty());
        }
        _ => panic!("mat must lower to a material element"),
    }
}

#[test]
fn text_system_restyles_every_section() {
    let tree = styles::debug_overlay::debug_overlay_tree(9);
    let mut world = UiWorld::new();
    spawn_root_element(&mut world, 1, tree);
    let text_id = world
        .nodes
        .iter()
        .position(|n| n.tags.contains(&9))
        .unwrap();
    let hover_size = world.nodes[text_id].text_styles.unwrap().hover.font_size;
    set_interaction(&mut world, text_id, Interaction::Hovered);
    interaction_text_style_system(&mut world, &vec![text_id]);
    for s in &world.nodes[text_id].sections {
        assert_eq!(s.style.font_size, hover_size);
    }
}

#[test]
fn visibility_toggles_by_tag() {
    let class: Vec<StyleEntry> = vec![atoms::flex()];
    let mut world = UiWorld::new();
    spawn_root_element(&mut world, 5, div(&class, Vec::new()));
    set_visibility_tagged(&mut world, 5, Visibility::Hidden);
    assert_eq!(world.nodes[0].style.visibility, Visibility::Hidden);
    // The untagged child keeps its own visibility.
    assert_ne!(world.nodes[1].style.visibility, Visibility::Hidden);
    set_visibility_tagged(&mut world, 5, Visibility::Visible);
    assert_eq!(world.nodes[0].style.visibility, Visibility::Visible);
}

#[test]
fn despawn_recursive_kills_one_subtree() {
    let class: Vec<StyleEntry> = vec![atoms::flex()];
    let mut world = UiWorld::new();
    let root = spawn_root_element(&mut world, 1, div(&class, small_children()));
    let container = root + 1;
    despawn_recursive(&mut world, container);
    assert!(world.nodes[root].alive);
    for i in container..world.nodes.len() {
        assert!(!world.nodes[i].alive);
    }
}

#[test]
fn pause_menu_holds_labeled_buttons() {
    let tree = styles::pause_menu::pause_menu_tree(4, 5);
    match tree {
        Element::Div(_, children) => match &children[0] {
            Element::Div(_, column) => {
                match &column[0] {
                    Element::Tagged(tag, inner) => {
                        assert_eq!(*tag, 4);
                        match inner.as_ref() {
                            Element::Button(_, cs) => match &cs[0] {
                                Element::Text(td) => {
                                    assert_eq!(td.sections[0].text, "Go back to game")
                                }
                                _ => panic!("label first"),
                            },
                            _ => panic!("labeled button must be a button"),
                        }
                    }
                    _ => panic!("button must carry its click component"),
                }
                match &column[1] {
                    Element::Tagged(tag, _) => assert_eq!(*tag, 5),
                    _ => panic!("second button must carry its click component"),
                }
            }
            _ => panic!("menu column missing"),
        },
        _ => panic!("pause menu must be a container"),
    }
}

#[test]
fn player_overlay_holds_three_hearts() {
    let tree = styles::player_overlay::player_overlay_tree((21, 22, 23), (31, 32, 33));
    match tree {
        Element::Div(_, hearts) => {
            assert_eq!(hearts.len(), 3);
            match &hearts[2] {
                Element::Tagged(tag, inner) => {
                    assert_eq!(*tag, 23);
                    match inner.as_ref() {
                        Element::Dynamic(d, _) => assert_eq!(d.material, 33),
                        _ => panic!("heart must be a material node"),
                    }
                }
                _ => panic!("heart must carry its component"),
            }
        }
        _ => panic!("overlay must be a row"),
    }
}
