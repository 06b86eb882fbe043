//! The main menu screen: a centered column with a start button and a quit
//! button.

use vstd::prelude::*;
use crate::atoms;
use crate::elements::{
    Element, as_el, button, div, spec_node_data, spec_text_snapshots, text,
};
use crate::stylesheet::{
    Atom, Phase, StyleEntry, Val, spec_button_default, spec_node_default, spec_rgb,
    spec_text_default,
};

verus! {

/// The class list of a menu button: full width, white at rest, darkening
/// red while hovered and darker still while pressed.
pub open spec fn spec_menu_button_class() -> Seq<StyleEntry> {
    seq![
        StyleEntry { phase: Phase::Base, atom: Atom::Width(Val::Percent(100)) },
        StyleEntry { phase: Phase::Base, atom: Atom::BgColor(spec_rgb(255, 255, 255)) },
        StyleEntry { phase: Phase::Hover, atom: Atom::BgColor(spec_rgb(220, 38, 38)) },
        StyleEntry { phase: Phase::Pressed, atom: Atom::BgColor(spec_rgb(153, 27, 27)) },
    ]
}

/// The class list of a menu button's label: large black text.
pub open spec fn spec_menu_label_class() -> Seq<StyleEntry> {
    seq![
        StyleEntry { phase: Phase::Base, atom: Atom::TextSize(48) },
        StyleEntry { phase: Phase::Base, atom: Atom::TextColor(spec_rgb(0, 0, 0)) },
    ]
}

/// The class list of a menu button, as a built vector.
pub fn menu_button_class() -> (c: Vec<StyleEntry>)
    ensures
        c@ == spec_menu_button_class(),
{
    let mut c: Vec<StyleEntry> = Vec::new();
    c.push(atoms::w_full());
    c.push(atoms::bg_white());
    c.push(crate::stylesheet::hover_(atoms::bg_red_600()));
    c.push(crate::stylesheet::pressed_(atoms::bg_red_800()));
    proof {
        assert(c@ =~= spec_menu_button_class());
    }
    c
}

/// The class list of a menu button's label, as a built vector.
pub fn menu_label_class() -> (c: Vec<StyleEntry>)
    ensures
        c@ == spec_menu_label_class(),
{
    let mut c: Vec<StyleEntry> = Vec::new();
    c.push(atoms::text_5xl());
    c.push(atoms::text_black());
    proof {
        assert(c@ =~= spec_menu_label_class());
    }
    c
}

/// One menu button: a full-width button with the standard menu styling and
/// one label, carrying the click component `tag`.
pub fn menu_button(tag: u64, label: String) -> (el: Element)
    ensures
        el matches Element::Tagged(t, inner) && t == tag && (*inner matches Element::Button(d, cs)
            && d == spec_node_data(spec_menu_button_class(), spec_button_default()) && cs@.len()
            == 1 && (cs@[0] matches Element::Text(td) && td.sections@.len() == 1
            && td.sections@[0].text == label && td.styles == spec_text_snapshots(
            spec_menu_label_class(),
            spec_text_default(),
        ))),
{
    let bc = menu_button_class();
    let lc = menu_label_class();
    let label_el = text(&lc, label);
    let mut children: Vec<Element> = Vec::new();
    children.push(label_el);
    as_el(tag, button(&bc, children))
}

/// The class list of the screen-filling centering container.
pub open spec fn spec_menu_screen_class() -> Seq<StyleEntry> {
    seq![
        StyleEntry { phase: Phase::Base, atom: Atom::Height(Val::Percent(100)) },
        StyleEntry { phase: Phase::Base, atom: Atom::Width(Val::Percent(100)) },
        StyleEntry { phase: Phase::Base, atom: Atom::Flex },
        StyleEntry { phase: Phase::Base, atom: Atom::JustifyCenter },
        StyleEntry { phase: Phase::Base, atom: Atom::ItemsCenter },
    ]
}

/// The class list of the button column.
pub open spec fn spec_menu_column_class() -> Seq<StyleEntry> {
    seq![
        StyleEntry { phase: Phase::Base, atom: Atom::Flex },
        StyleEntry { phase: Phase::Base, atom: Atom::FlexCol },
    ]
}

/// The main menu's element tree: a screen-filling container centering a
/// column of two menu buttons, the start button above the quit button.
pub fn main_menu_tree(start_tag: u64, quit_tag: u64) -> (el: Element)
    ensures
        el matches Element::Div(d, cs) && d == spec_node_data(
            spec_menu_screen_class(),
            spec_node_default(),
        ) && cs@.len() == 1 && (cs@[0] matches Element::Div(d2, cs2) && d2 == spec_node_data(
            spec_menu_column_class(),
            spec_node_default(),
        ) && cs2@.len() == 2 && (cs2@[0] matches Element::Tagged(t0, b0) && t0 == start_tag
            && (*b0 matches Element::Button(bd0, bcs0) && bd0 == spec_node_data(
            spec_menu_button_class(),
            spec_button_default(),
        ) && bcs0@.len() == 1 && (bcs0@[0] matches Element::Text(td0) && td0.sections@.len() == 1
            && td0.sections@[0].text@ == "Start game"@))) && (cs2@[1] matches Element::Tagged(
            t1,
            b1,
        ) && t1 == quit_tag && (*b1 matches Element::Button(bd1, bcs1) && bd1 == spec_node_data(
            spec_menu_button_class(),
            spec_button_default(),
        ) && bcs1@.len() == 1 && (bcs1@[0] matches Element::Text(td1) && td1.sections@.len() == 1
            && td1.sections@[0].text@ == "Quit"@)))),
{
    let start = menu_button(start_tag, String::from_str("Start game"));
    let quit = menu_button(quit_tag, String::from_str("Quit"));
    let mut column_children: Vec<Element> = Vec::new();
    column_children.push(start);
    column_children.push(quit);
    let mut column_class: Vec<StyleEntry> = Vec::new();
    column_class.push(atoms::flex());
    column_class.push(atoms::flex_col());
    proof {
        assert(column_class@ =~= spec_menu_column_class());
    }
    let column = div(&column_class, column_children);
    let mut screen_class: Vec<StyleEntry> = Vec::new();
    screen_class.push(atoms::h_full());
    screen_class.push(atoms::w_full());
    screen_class.push(atoms::flex());
    screen_class.push(atoms::justify_center());
    screen_class.push(atoms::items_center());
    proof {
        assert(screen_class@ =~= spec_menu_screen_class());
    }
    let mut screen_children: Vec<Element> = Vec::new();
    screen_children.push(column);
    div(&screen_class, screen_children)
}

} // verus!
