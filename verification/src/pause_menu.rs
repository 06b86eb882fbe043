//! The pause menu screen: a centered column with a resume button and a
//! quit button, each a labeled button component with a child slot.

use vstd::prelude::*;
use crate::atoms;
use crate::elements::{Element, as_el, button, div, fragment, spec_node_data, text};
use crate::main_menu::{
    menu_button_class, menu_label_class, spec_menu_button_class, spec_menu_column_class,
    spec_menu_screen_class,
};
use crate::stylesheet::{StyleEntry, spec_button_default, spec_node_default};

verus! {

/// The rendering of a labeled button component: a menu-styled button whose
/// children are the label's text followed by the component's slot, with
/// the click component `tag` attached.
pub fn labeled_button(tag: u64, label: String, slot: Element) -> (el: Element)
    ensures
        el matches Element::Tagged(t, inner) && t == tag && (*inner matches Element::Button(d, cs)
            && d == spec_node_data(spec_menu_button_class(), spec_button_default()) && cs@.len()
            == 2 && (cs@[0] matches Element::Text(td) && td.sections@.len() == 1
            && td.sections@[0].text == label) && cs@[1] == slot),
{
    let bc = menu_button_class();
    let lc = menu_label_class();
    let label_el = text(&lc, label);
    let mut children: Vec<Element> = Vec::new();
    children.push(label_el);
    children.push(slot);
    as_el(tag, button(&bc, children))
}

/// The pause menu's element tree: a screen-filling container centering a
/// column with a back-to-game button above a quit button, each with an
/// empty slot.
pub fn pause_menu_tree(back_tag: u64, quit_tag: u64) -> (el: Element)
    ensures
        el matches Element::Div(d, cs) && d == spec_node_data(
            spec_menu_screen_class(),
            spec_node_default(),
        ) && cs@.len() == 1 && (cs@[0] matches Element::Div(d2, cs2) && d2 == spec_node_data(
            spec_menu_column_class(),
            spec_node_default(),
        ) && cs2@.len() == 2 && (cs2@[0] matches Element::Tagged(t0, b0) && t0 == back_tag
            && (*b0 matches Element::Button(_, bcs0) && bcs0@.len() == 2 && (bcs0@[0] matches
            Element::Text(td0) && td0.sections@.len() == 1 && td0.sections@[0].text@
            == "Go back to game"@))) && (cs2@[1] matches Element::Tagged(t1, b1) && t1 == quit_tag
            && (*b1 matches Element::Button(_, bcs1) && bcs1@.len() == 2 && (bcs1@[0] matches
            Element::Text(td1) && td1.sections@.len() == 1 && td1.sections@[0].text@
            == "Quit"@)))),
{
    let back = labeled_button(
        back_tag,
        String::from_str("Go back to game"),
        fragment(Vec::new()),
    );
    let quit = labeled_button(quit_tag, String::from_str("Quit"), fragment(Vec::new()));
    let mut column_children: Vec<Element> = Vec::new();
    column_children.push(back);
    column_children.push(quit);
    let mut column_class: Vec<StyleEntry> = Vec::new();
    column_class.push(atoms::flex());
    column_class.push(atoms::flex_col());
    proof {
        assert(column_class@ =~= spec_menu_column_class());
    }
    let column = div(&column_class, column_children);
    let mut screen_class: Vec<StyleEntry> = Vec::new();
    screen_class.push(atoms::h_full());
    screen_class.push(atoms::w_full());
    screen_class.push(atoms::flex());
    screen_class.push(atoms::justify_center());
    screen_class.push(atoms::items_center());
    proof {
        assert(screen_class@ =~= spec_menu_screen_class());
    }
    let mut screen_children: Vec<Element> = Vec::new();
    screen_children.push(column);
    div(&screen_class, screen_children)
}

} // verus!
