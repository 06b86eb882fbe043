//! The declarative element tree.
//!
//! An [`Element`] is a transient, owned build plan for a UI subtree.  Styled
//! constructors resolve their class list once per interaction state at build
//! time, so every styled element carries three immutable style snapshots;
//! lowering (in [`crate::world`]) only copies them onto the spawned nodes.

use vstd::prelude::*;
use crate::stylesheet::{
    Interaction, LayoutStyle, NodeStyle, Phase, Rgba, StyleEntry, TextStyle, Visibility,
    resolve_node, resolve_text, spec_button_default, spec_layout_default, spec_node_default,
    spec_resolve_node, spec_resolve_text, spec_text_default,
};

verus! {

/// The three layout snapshots of a styled node, one per interaction state.
#[derive(Clone, Copy, PartialEq, Eq, Structural, Debug)]
pub struct InteractionStyle {
    pub none: LayoutStyle,
    pub hover: LayoutStyle,
    pub pressed: LayoutStyle,
}

/// The three background-color snapshots of a styled node.
#[derive(Clone, Copy, PartialEq, Eq, Structural, Debug)]
pub struct InteractionBackgroundColor {
    pub none: Rgba,
    pub hover: Rgba,
    pub pressed: Rgba,
}

/// The three text-style snapshots of a text node.
#[derive(Clone, Copy, PartialEq, Eq, Structural, Debug)]
pub struct InteractionTextStyle {
    pub none: TextStyle,
    pub hover: TextStyle,
    pub pressed: TextStyle,
}

/// The layout snapshots a class list yields over a starting node style.
pub open spec fn spec_style_snapshots(list: Seq<StyleEntry>, base: NodeStyle) -> InteractionStyle {
    InteractionStyle {
        none: spec_resolve_node(list, Interaction::Normal, base).layout,
        hover: spec_resolve_node(list, Interaction::Hovered, base).layout,
        pressed: spec_resolve_node(list, Interaction::Pressed, base).layout,
    }
}

/// The background snapshots a class list yields over a starting node style.
pub open spec fn spec_background_snapshots(
    list: Seq<StyleEntry>,
    base: NodeStyle,
) -> InteractionBackgroundColor {
    InteractionBackgroundColor {
        none: spec_resolve_node(list, Interaction::Normal, base).background,
        hover: spec_resolve_node(list, Interaction::Hovered, base).background,
        pressed: spec_resolve_node(list, Interaction::Pressed, base).background,
    }
}

/// The text-style snapshots a class list yields over a starting text style.
pub open spec fn spec_text_snapshots(
    list: Seq<StyleEntry>,
    base: TextStyle,
) -> InteractionTextStyle {
    InteractionTextStyle {
        none: spec_resolve_text(list, Interaction::Normal, base),
        hover: spec_resolve_text(list, Interaction::Hovered, base),
        pressed: spec_resolve_text(list, Interaction::Pressed, base),
    }
}

/// What a styled container, button or image carries at build time: the fully
/// resolved base state it spawns with, plus the snapshot triples the reactive
/// systems swap in later.
#[derive(Clone, Copy, PartialEq, Eq, Structural, Debug)]
pub struct NodeData {
    pub bundle: NodeStyle,
    pub styles: InteractionStyle,
    pub backgrounds: InteractionBackgroundColor,
}

/// The build-time data of a styled node: base state and snapshots, all
/// resolved from one class list.
pub open spec fn spec_node_data(list: Seq<StyleEntry>, base: NodeStyle) -> NodeData {
    NodeData {
        bundle: spec_resolve_node(list, Interaction::Normal, base),
        styles: spec_style_snapshots(list, base),
        backgrounds: spec_background_snapshots(list, base),
    }
}

/// The build-time data of a styled node, resolved from one class list.
pub fn node_data(list: &Vec<StyleEntry>, base: NodeStyle) -> (d: NodeData)
    ensures
        d == spec_node_data(list@, base),
{
    let none = resolve_node(list, Interaction::Normal, base);
    let hover = resolve_node(list, Interaction::Hovered, base);
    let pressed = resolve_node(list, Interaction::Pressed, base);
    NodeData {
        bundle: none,
        styles: InteractionStyle { none: none.layout, hover: hover.layout, pressed: pressed.layout },
        backgrounds: InteractionBackgroundColor {
            none: none.background,
            hover: hover.background,
            pressed: pressed.background,
        },
    }
}

/// An image element: a styled node plus the texture handle it draws.
#[derive(Clone, Copy, PartialEq, Eq, Structural, Debug)]
pub struct ImageData {
    pub node: NodeData,
    pub texture: u64,
}

/// One run of text inside a text node.
#[derive(Debug)]
pub struct TextSection {
    pub text: String,
    pub style: TextStyle,
}

/// A text element: a layout node whose sections carry the styled text.
#[derive(Debug)]
pub struct TextData {
    pub layout: LayoutStyle,
    pub visibility: Visibility,
    pub sections: Vec<TextSection>,
    pub styles: InteractionTextStyle,
}

/// A material-backed node: a styled node drawn by a custom UI material.
#[derive(Clone, Copy, PartialEq, Eq, Structural, Debug)]
pub struct MaterialData {
    pub material: u64,
    pub bundle: NodeStyle,
    pub styles: InteractionStyle,
}

/// A declarative, pre-lowering description of a UI subtree.  It is consumed
/// exactly once by lowering and does not persist.
#[derive(Debug)]
pub enum Element {
    /// Children lowered under the current parent; introduces no node.
    Fragment(Vec<Element>),
    /// A styled container node.
    Div(NodeData, Vec<Element>),
    /// A clickable styled node.
    Button(NodeData, Vec<Element>),
    /// A leaf node drawing a texture.
    Image(ImageData),
    /// A leaf node drawing styled text.
    Text(TextData),
    /// A node drawn by a custom material, with a child slot.
    Dynamic(MaterialData, Vec<Element>),
    /// The wrapped element with a user marker component attached to the
    /// entity it lowers to.
    Tagged(u64, Box<Element>),
}

/// A fragment: the children and nothing else.
pub fn fragment(children: Vec<Element>) -> (el: Element)
    ensures
        el matches Element::Fragment(cs) && cs == children,
{
    Element::Fragment(children)
}

/// A styled container over a child list.
pub fn div(class: &Vec<StyleEntry>, children: Vec<Element>) -> (el: Element)
    ensures
        el matches Element::Div(d, cs) && d == spec_node_data(class@, spec_node_default())
            && cs == children,
{
    let d = node_data(class, NodeStyle::default());
    Element::Div(d, children)
}

/// A clickable styled node over a child list; it starts from the button
/// default style (opaque white background).
pub fn button(class: &Vec<StyleEntry>, children: Vec<Element>) -> (el: Element)
    ensures
        el matches Element::Button(d, cs) && d == spec_node_data(class@, spec_button_default())
            && cs == children,
{
    let d = node_data(class, crate::stylesheet::button_default());
    Element::Button(d, children)
}

/// A styled image node drawing the texture behind `src`.
pub fn img(class: &Vec<StyleEntry>, src: u64) -> (el: Element)
    ensures
        el matches Element::Image(d) && d.node == spec_node_data(class@, spec_node_default())
            && d.texture == src,
{
    let d = node_data(class, NodeStyle::default());
    Element::Image(ImageData { node: d, texture: src })
}

/// A text node with one section holding `content`, styled by the class list
/// resolved over the default text style.
pub fn text(class: &Vec<StyleEntry>, content: String) -> (el: Element)
    ensures
        el matches Element::Text(d) && {
            &&& d.layout == spec_layout_default()
            &&& d.visibility == Visibility::Inherited
            &&& d.styles == spec_text_snapshots(class@, spec_text_default())
            &&& d.sections@.len() == 1
            &&& d.sections@[0].text == content
            &&& d.sections@[0].style == spec_resolve_text(
                class@,
                Interaction::Normal,
                spec_text_default(),
            )
        },
{
    let none = resolve_text(class, Interaction::Normal, TextStyle::default());
    let hover = resolve_text(class, Interaction::Hovered, TextStyle::default());
    let pressed = resolve_text(class, Interaction::Pressed, TextStyle::default());
    let mut sections: Vec<TextSection> = Vec::new();
    sections.push(TextSection { text: content, style: none });
    Element::Text(
        TextData {
            layout: LayoutStyle::default(),
            visibility: Visibility::Inherited,
            sections,
            styles: InteractionTextStyle { none, hover, pressed },
        },
    )
}

/// A node drawn by the custom material behind `material`, with an empty slot.
/// Material nodes take layout and visibility atoms; they have no background.
pub fn mat(class: &Vec<StyleEntry>, material: u64) -> (el: Element)
    ensures
        el matches Element::Dynamic(d, cs) && {
            &&& d.material == material
            &&& d.bundle == spec_resolve_node(class@, Interaction::Normal, spec_node_default())
            &&& d.styles == spec_style_snapshots(class@, spec_node_default())
            &&& cs@.len() == 0
        },
{
    let none = resolve_node(class, Interaction::Normal, NodeStyle::default());
    let hover = resolve_node(class, Interaction::Hovered, NodeStyle::default());
    let pressed = resolve_node(class, Interaction::Pressed, NodeStyle::default());
    Element::Dynamic(
        MaterialData {
            material,
            bundle: none,
            styles: InteractionStyle {
                none: none.layout,
                hover: hover.layout,
                pressed: pressed.layout,
            },
        },
        Vec::new(),
    )
}

/// Attach the user marker component `tag` to the entity `el` lowers to.
pub fn as_el(tag: u64, el: Element) -> (r: Element)
    ensures
        r matches Element::Tagged(t, inner) && t == tag && *inner == el,
{
    Element::Tagged(tag, Box::new(el))
}

/// Pair a screen marker component with the tree it will own; consumed by
/// [`crate::world::spawn_root_element`].
pub fn root(tag: u64, el: Element) -> (r: (u64, Element))
    ensures
        r.0 == tag && r.1 == el,
{
    (tag, el)
}

} // verus!
