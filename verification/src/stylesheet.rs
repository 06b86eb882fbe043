//! Style values and utility-class resolution.
//!
//! A *style atom* is one named mutation of a style-bearing value (set the
//! width to 100%, paint the background a given red, pad every edge by 16
//! pixels).  A *class list* is an ordered list of atoms, each tagged with the
//! lifecycle phase in which its mutation runs: the base pass, the hover pass
//! or the pressed pass.  Resolving a class list at an interaction state runs
//! the base pass, then (when hovered or pressed) the hover pass, then (when
//! pressed) the pressed pass, left to right within each pass, so each state
//! is the cumulative application of all lower states plus its own deltas.

use vstd::prelude::*;

verus! {

/// The interaction state of a live UI entity; exactly one is active at a time.
#[derive(Clone, Copy, PartialEq, Eq, Structural, Debug)]
pub enum Interaction {
    /// Not under the pointer.
    Normal,
    /// Under the pointer, button not held.
    Hovered,
    /// Under the pointer with the button held.
    Pressed,
}

/// The lifecycle pass in which a class-list entry applies its mutation.
#[derive(Clone, Copy, PartialEq, Eq, Structural, Debug)]
pub enum Phase {
    Base,
    Hover,
    Pressed,
}

/// A color with an alpha channel; `a == 0` is fully transparent.
#[derive(Clone, Copy, PartialEq, Eq, Structural, Debug)]
pub struct Rgba {
    pub r: u8,
    pub g: u8,
    pub b: u8,
    pub a: u8,
}

/// An opaque color from byte channels.
pub open spec fn spec_rgb(r: u8, g: u8, b: u8) -> Rgba {
    Rgba { r, g, b, a: 255 }
}

/// An opaque color from byte channels.
pub fn rgb_u8(r: u8, g: u8, b: u8) -> (c: Rgba)
    ensures
        c == spec_rgb(r, g, b),
{
    Rgba { r, g, b, a: 255 }
}

/// Opaque white.
pub fn white() -> (c: Rgba)
    ensures
        c == spec_rgb(255, 255, 255),
{
    Rgba { r: 255, g: 255, b: 255, a: 255 }
}

/// Opaque black.
pub fn black() -> (c: Rgba)
    ensures
        c == spec_rgb(0, 0, 0),
{
    Rgba { r: 0, g: 0, b: 0, a: 255 }
}

/// The fully transparent color.
pub open spec fn spec_transparent() -> Rgba {
    Rgba { r: 0, g: 0, b: 0, a: 0 }
}

/// The fully transparent color.
pub fn transparent() -> (c: Rgba)
    ensures
        c == spec_transparent(),
{
    Rgba { r: 0, g: 0, b: 0, a: 0 }
}

/// A layout length: automatic, whole pixels, or a percentage of the parent.
#[derive(Clone, Copy, PartialEq, Eq, Structural, Debug)]
pub enum Val {
    Auto,
    Px(u32),
    Percent(u32),
}

/// One length per edge of a box.
#[derive(Clone, Copy, PartialEq, Eq, Structural, Debug)]
pub struct UiRect {
    pub left: Val,
    pub right: Val,
    pub top: Val,
    pub bottom: Val,
}

impl UiRect {
    /// The same length on all four edges.
    pub open spec fn spec_all(v: Val) -> UiRect {
        UiRect { left: v, right: v, top: v, bottom: v }
    }

    /// The same length on all four edges.
    pub fn all(v: Val) -> (r: UiRect)
        ensures
            r == UiRect::spec_all(v),
    {
        UiRect { left: v, right: v, top: v, bottom: v }
    }
}

/// How a node lays out its children.
#[derive(Clone, Copy, PartialEq, Eq, Structural, Debug)]
pub enum Display {
    Flex,
    Grid,
    Hidden,
}

/// The main axis of a flex container.
#[derive(Clone, Copy, PartialEq, Eq, Structural, Debug)]
pub enum FlexDirection {
    Row,
    Column,
    RowReverse,
    ColumnReverse,
}

/// Cross-axis alignment of a container's items.
#[derive(Clone, Copy, PartialEq, Eq, Structural, Debug)]
pub enum AlignItems {
    Unset,
    FlexStart,
    FlexEnd,
    Center,
}

/// Main-axis distribution of a container's items.
#[derive(Clone, Copy, PartialEq, Eq, Structural, Debug)]
pub enum JustifyContent {
    Unset,
    FlexStart,
    FlexEnd,
    Center,
    SpaceBetween,
    SpaceAround,
    SpaceEvenly,
}

/// Whether a node is drawn; `Inherited` follows the parent.
#[derive(Clone, Copy, PartialEq, Eq, Structural, Debug)]
pub enum Visibility {
    Inherited,
    Hidden,
    Visible,
}

/// The layout rules of one node.
#[derive(Clone, Copy, PartialEq, Eq, Structural, Debug)]
pub struct LayoutStyle {
    pub display: Display,
    pub flex_direction: FlexDirection,
    pub width: Val,
    pub height: Val,
    pub align_items: AlignItems,
    pub justify_content: JustifyContent,
    pub padding: UiRect,
}

/// The layout every node starts from before any atom runs.
pub open spec fn spec_layout_default() -> LayoutStyle {
    LayoutStyle {
        display: Display::Flex,
        flex_direction: FlexDirection::Row,
        width: Val::Auto,
        height: Val::Auto,
        align_items: AlignItems::Unset,
        justify_content: JustifyContent::Unset,
        padding: UiRect::spec_all(Val::Px(0)),
    }
}

impl Default for LayoutStyle {
    fn default() -> (s: LayoutStyle)
        ensures
            s == spec_layout_default(),
    {
        LayoutStyle {
            display: Display::Flex,
            flex_direction: FlexDirection::Row,
            width: Val::Auto,
            height: Val::Auto,
            align_items: AlignItems::Unset,
            justify_content: JustifyContent::Unset,
            padding: UiRect::all(Val::Px(0)),
        }
    }
}

/// The style of one run of text: a font handle, a size in pixels and a color.
#[derive(Clone, Copy, PartialEq, Eq, Structural, Debug)]
pub struct TextStyle {
    pub font: u64,
    pub font_size: u32,
    pub color: Rgba,
}

/// The text style every text section starts from before any atom runs.
pub open spec fn spec_text_default() -> TextStyle {
    TextStyle { font: 0, font_size: 12, color: spec_rgb(255, 255, 255) }
}

impl Default for TextStyle {
    fn default() -> (s: TextStyle)
        ensures
            s == spec_text_default(),
    {
        TextStyle { font: 0, font_size: 12, color: Rgba { r: 255, g: 255, b: 255, a: 255 } }
    }
}

/// Everything a styled node carries that atoms can touch: layout rules,
/// a background color and a visibility flag.
#[derive(Clone, Copy, PartialEq, Eq, Structural, Debug)]
pub struct NodeStyle {
    pub layout: LayoutStyle,
    pub background: Rgba,
    pub visibility: Visibility,
}

/// The node style every plain container starts from: default layout,
/// transparent background, inherited visibility.
pub open spec fn spec_node_default() -> NodeStyle {
    NodeStyle {
        layout: spec_layout_default(),
        background: spec_transparent(),
        visibility: Visibility::Inherited,
    }
}

impl Default for NodeStyle {
    fn default() -> (s: NodeStyle)
        ensures
            s == spec_node_default(),
    {
        NodeStyle {
            layout: LayoutStyle::default(),
            background: Rgba { r: 0, g: 0, b: 0, a: 0 },
            visibility: Visibility::Inherited,
        }
    }
}

/// The node style a button starts from: like a plain container, but with an
/// opaque white background.
pub open spec fn spec_button_default() -> NodeStyle {
    NodeStyle {
        layout: spec_layout_default(),
        background: spec_rgb(255, 255, 255),
        visibility: Visibility::Inherited,
    }
}

/// The node style a button starts from.
pub fn button_default() -> (s: NodeStyle)
    ensures
        s == spec_button_default(),
{
    NodeStyle {
        layout: LayoutStyle::default(),
        background: Rgba { r: 255, g: 255, b: 255, a: 255 },
        visibility: Visibility::Inherited,
    }
}

/// Which edges a padding atom writes.
#[derive(Clone, Copy, PartialEq, Eq, Structural, Debug)]
pub enum PadEdge {
    All,
    Left,
    Right,
    Top,
    Bottom,
    Horizontal,
    Vertical,
}

/// One utility-class token: a single named style mutation.  The catalog of
/// named atoms lives in [`crate::atoms`].
#[derive(Clone, Copy, PartialEq, Eq, Structural, Debug)]
pub enum Atom {
    Flex,
    FlexCol,
    FlexRow,
    Width(Val),
    Height(Val),
    ItemsCenter,
    ItemsStart,
    ItemsEnd,
    JustifyCenter,
    JustifyBetween,
    JustifyAround,
    JustifyEvenly,
    JustifyStart,
    JustifyEnd,
    BgColor(Rgba),
    TextColor(Rgba),
    TextSize(u32),
    FontFamily(u64),
    Visible,
    Invisible,
    AlwaysVisible,
    Padding(PadEdge, u32),
}

/// One entry of a class list: an atom and the pass in which it runs.
#[derive(Clone, Copy, PartialEq, Eq, Structural, Debug)]
pub struct StyleEntry {
    pub phase: Phase,
    pub atom: Atom,
}

/// Defer an entry's mutation to the hover pass.
pub fn hover_(e: StyleEntry) -> (r: StyleEntry)
    ensures
        r == (StyleEntry { phase: Phase::Hover, atom: e.atom }),
{
    StyleEntry { phase: Phase::Hover, atom: e.atom }
}

/// Defer an entry's mutation to the pressed pass.
pub fn pressed_(e: StyleEntry) -> (r: StyleEntry)
    ensures
        r == (StyleEntry { phase: Phase::Pressed, atom: e.atom }),
{
    StyleEntry { phase: Phase::Pressed, atom: e.atom }
}

/// A padding rect with `px` written to the edges `edge` selects.
pub open spec fn spec_apply_padding(p: UiRect, edge: PadEdge, px: u32) -> UiRect {
    match edge {
        PadEdge::All => UiRect::spec_all(Val::Px(px)),
        PadEdge::Left => UiRect { left: Val::Px(px), ..p },
        PadEdge::Right => UiRect { right: Val::Px(px), ..p },
        PadEdge::Top => UiRect { top: Val::Px(px), ..p },
        PadEdge::Bottom => UiRect { bottom: Val::Px(px), ..p },
        PadEdge::Horizontal => UiRect { left: Val::Px(px), right: Val::Px(px), ..p },
        PadEdge::Vertical => UiRect { top: Val::Px(px), bottom: Val::Px(px), ..p },
    }
}

/// What one atom does to a node's style.  Atoms that only touch text styles
/// leave a node unchanged.
pub open spec fn spec_apply_node(s: NodeStyle, a: Atom) -> NodeStyle {
    match a {
        Atom::Flex => NodeStyle { layout: LayoutStyle { display: Display::Flex, ..s.layout }, ..s },
        Atom::FlexCol => NodeStyle {
            layout: LayoutStyle { flex_direction: FlexDirection::Column, ..s.layout },
            ..s
        },
        Atom::FlexRow => NodeStyle {
            layout: LayoutStyle { flex_direction: FlexDirection::Row, ..s.layout },
            ..s
        },
        Atom::Width(v) => NodeStyle { layout: LayoutStyle { width: v, ..s.layout }, ..s },
        Atom::Height(v) => NodeStyle { layout: LayoutStyle { height: v, ..s.layout }, ..s },
        Atom::ItemsCenter => NodeStyle {
            layout: LayoutStyle { align_items: AlignItems::Center, ..s.layout },
            ..s
        },
        Atom::ItemsStart => NodeStyle {
            layout: LayoutStyle { align_items: AlignItems::FlexStart, ..s.layout },
            ..s
        },
        Atom::ItemsEnd => NodeStyle {
            layout: LayoutStyle { align_items: AlignItems::FlexEnd, ..s.layout },
            ..s
        },
        Atom::JustifyCenter => NodeStyle {
            layout: LayoutStyle { justify_content: JustifyContent::Center, ..s.layout },
            ..s
        },
        Atom::JustifyBetween => NodeStyle {
            layout: LayoutStyle { justify_content: JustifyContent::SpaceBetween, ..s.layout },
            ..s
        },
        Atom::JustifyAround => NodeStyle {
            layout: LayoutStyle { justify_content: JustifyContent::SpaceAround, ..s.layout },
            ..s
        },
        Atom::JustifyEvenly => NodeStyle {
            layout: LayoutStyle { justify_content: JustifyContent::SpaceEvenly, ..s.layout },
            ..s
        },
        Atom::JustifyStart => NodeStyle {
            layout: LayoutStyle { justify_content: JustifyContent::FlexStart, ..s.layout },
            ..s
        },
        Atom::JustifyEnd => NodeStyle {
            layout: LayoutStyle { justify_content: JustifyContent::FlexEnd, ..s.layout },
            ..s
        },
        Atom::BgColor(c) => NodeStyle { background: c, ..s },
        Atom::TextColor(_) => s,
        Atom::TextSize(_) => s,
        Atom::FontFamily(_) => s,
        Atom::Visible => NodeStyle { visibility: Visibility::Inherited, ..s },
        Atom::Invisible => NodeStyle { visibility: Visibility::Hidden, ..s },
        Atom::AlwaysVisible => NodeStyle { visibility: Visibility::Visible, ..s },
        Atom::Padding(edge, px) => NodeStyle {
            layout: LayoutStyle { padding: spec_apply_padding(s.layout.padding, edge, px), ..s.layout },
            ..s
        },
    }
}

/// What one atom does to a text style.  Atoms that only touch node styles
/// leave a text style unchanged.
pub open spec fn spec_apply_text(s: TextStyle, a: Atom) -> TextStyle {
    match a {
        Atom::TextColor(c) => TextStyle { color: c, ..s },
        Atom::TextSize(px) => TextStyle { font_size: px, ..s },
        Atom::FontFamily(f) => TextStyle { font: f, ..s },
        _ => s,
    }
}

/// What one atom does to a node's style.
pub fn apply_node(s: NodeStyle, a: Atom) -> (r: NodeStyle)
    ensures
        r == spec_apply_node(s, a),
{
    let mut r = s;
    match a {
        Atom::Flex => {
            r.layout.display = Display::Flex;
        },
        Atom::FlexCol => {
            r.layout.flex_direction = FlexDirection::Column;
        },
        Atom::FlexRow => {
            r.layout.flex_direction = FlexDirection::Row;
        },
        Atom::Width(v) => {
            r.layout.width = v;
        },
        Atom::Height(v) => {
            r.layout.height = v;
        },
        Atom::ItemsCenter => {
            r.layout.align_items = AlignItems::Center;
        },
        Atom::ItemsStart => {
            r.layout.align_items = AlignItems::FlexStart;
        },
        Atom::ItemsEnd => {
            r.layout.align_items = AlignItems::FlexEnd;
        },
        Atom::JustifyCenter => {
            r.layout.justify_content = JustifyContent::Center;
        },
        Atom::JustifyBetween => {
            r.layout.justify_content = JustifyContent::SpaceBetween;
        },
        Atom::JustifyAround => {
            r.layout.justify_content = JustifyContent::SpaceAround;
        },
        Atom::JustifyEvenly => {
            r.layout.justify_content = JustifyContent::SpaceEvenly;
        },
        Atom::JustifyStart => {
            r.layout.justify_content = JustifyContent::FlexStart;
        },
        Atom::JustifyEnd => {
            r.layout.justify_content = JustifyContent::FlexEnd;
        },
        Atom::BgColor(c) => {
            r.background = c;
        },
        Atom::TextColor(_) => {},
        Atom::TextSize(_) => {},
        Atom::FontFamily(_) => {},
        Atom::Visible => {
            r.visibility = Visibility::Inherited;
        },
        Atom::Invisible => {
            r.visibility = Visibility::Hidden;
        },
        Atom::AlwaysVisible => {
            r.visibility = Visibility::Visible;
        },
        Atom::Padding(edge, px) => {
            match edge {
                PadEdge::All => {
                    r.layout.padding = UiRect::all(Val::Px(px));
                },
                PadEdge::Left => {
                    r.layout.padding.left = Val::Px(px);
                },
                PadEdge::Right => {
                    r.layout.padding.right = Val::Px(px);
                },
                PadEdge::Top => {
                    r.layout.padding.top = Val::Px(px);
                },
                PadEdge::Bottom => {
                    r.layout.padding.bottom = Val::Px(px);
                },
                PadEdge::Horizontal => {
                    r.layout.padding.left = Val::Px(px);
                    r.layout.padding.right = Val::Px(px);
                },
                PadEdge::Vertical => {
                    r.layout.padding.top = Val::Px(px);
                    r.layout.padding.bottom = Val::Px(px);
                },
            }
        },
    }
    r
}

/// What one atom does to a text style.
pub fn apply_text(s: TextStyle, a: Atom) -> (r: TextStyle)
    ensures
        r == spec_apply_text(s, a),
{
    let mut r = s;
    match a {
        Atom::TextColor(c) => {
            r.color = c;
        },
        Atom::TextSize(px) => {
            r.font_size = px;
        },
        Atom::FontFamily(f) => {
            r.font = f;
        },
        _ => {},
    }
    r
}

/// One step of a pass: the entry's mutation runs only in its own phase.
pub open spec fn spec_step_node(s: NodeStyle, e: StyleEntry, ph: Phase) -> NodeStyle {
    if e.phase == ph {
        spec_apply_node(s, e.atom)
    } else {
        s
    }
}

/// One step of a pass over a text style.
pub open spec fn spec_step_text(s: TextStyle, e: StyleEntry, ph: Phase) -> TextStyle {
    if e.phase == ph {
        spec_apply_text(s, e.atom)
    } else {
        s
    }
}

/// One pass over a class list: the mutations of the entries tagged with
/// phase `ph`, applied left to right; all other entries are skipped.
pub open spec fn spec_pass_node(s: NodeStyle, list: Seq<StyleEntry>, ph: Phase) -> NodeStyle
    decreases list.len(),
{
    if list.len() == 0 {
        s
    } else {
        spec_pass_node(spec_step_node(s, list[0], ph), list.drop_first(), ph)
    }
}

/// One pass over a class list, mutating a text style.
pub open spec fn spec_pass_text(s: TextStyle, list: Seq<StyleEntry>, ph: Phase) -> TextStyle
    decreases list.len(),
{
    if list.len() == 0 {
        s
    } else {
        spec_pass_text(spec_step_text(s, list[0], ph), list.drop_first(), ph)
    }
}

/// The node style a class list resolves to at an interaction state: the base
/// pass, plus the hover pass when hovered or pressed, plus the pressed pass
/// when pressed.
pub open spec fn spec_resolve_node(list: Seq<StyleEntry>, state: Interaction, base: NodeStyle) -> NodeStyle {
    match state {
        Interaction::Normal => spec_pass_node(base, list, Phase::Base),
        Interaction::Hovered => spec_pass_node(
            spec_pass_node(base, list, Phase::Base),
            list,
            Phase::Hover,
        ),
        Interaction::Pressed => spec_pass_node(
            spec_pass_node(spec_pass_node(base, list, Phase::Base), list, Phase::Hover),
            list,
            Phase::Pressed,
        ),
    }
}

/// The text style a class list resolves to at an interaction state.
pub open spec fn spec_resolve_text(list: Seq<StyleEntry>, state: Interaction, base: TextStyle) -> TextStyle {
    match state {
        Interaction::Normal => spec_pass_text(base, list, Phase::Base),
        Interaction::Hovered => spec_pass_text(
            spec_pass_text(base, list, Phase::Base),
            list,
            Phase::Hover,
        ),
        Interaction::Pressed => spec_pass_text(
            spec_pass_text(spec_pass_text(base, list, Phase::Base), list, Phase::Hover),
            list,
            Phase::Pressed,
        ),
    }
}

/// One pass over a class list, mutating a node style.
pub fn pass_node(s: NodeStyle, list: &Vec<StyleEntry>, ph: Phase) -> (r: NodeStyle)
    ensures
        r == spec_pass_node(s, list@, ph),
{
    let mut cur = s;
    let mut i: usize = 0;
    proof {
        assert(list@.subrange(0, list@.len() as int) =~= list@);
    }
    while i < list.len()
        invariant
            i <= list@.len(),
            spec_pass_node(cur, list@.subrange(i as int, list@.len() as int), ph) == spec_pass_node(
                s,
                list@,
                ph,
            ),
        decreases list@.len() - i,
    {
        let e = list[i];
        proof {
            let rest = list@.subrange(i as int, list@.len() as int);
            assert(rest.drop_first() =~= list@.subrange(i + 1, list@.len() as int));
        }
        if e.phase == ph {
            cur = apply_node(cur, e.atom);
        }
        i += 1;
    }
    cur
}

/// One pass over a class list, mutating a text style.
pub fn pass_text(s: TextStyle, list: &Vec<StyleEntry>, ph: Phase) -> (r: TextStyle)
    ensures
        r == spec_pass_text(s, list@, ph),
{
    let mut cur = s;
    let mut i: usize = 0;
    proof {
        assert(list@.subrange(0, list@.len() as int) =~= list@);
    }
    while i < list.len()
        invariant
            i <= list@.len(),
            spec_pass_text(cur, list@.subrange(i as int, list@.len() as int), ph) == spec_pass_text(
                s,
                list@,
                ph,
            ),
        decreases list@.len() - i,
    {
        let e = list[i];
        proof {
            let rest = list@.subrange(i as int, list@.len() as int);
            assert(rest.drop_first() =~= list@.subrange(i + 1, list@.len() as int));
        }
        if e.phase == ph {
            cur = apply_text(cur, e.atom);
        }
        i += 1;
    }
    cur
}

/// Resolve a class list at an interaction state, starting from `base`.
pub fn resolve_node(list: &Vec<StyleEntry>, state: Interaction, base: NodeStyle) -> (r: NodeStyle)
    ensures
        r == spec_resolve_node(list@, state, base),
{
    match state {
        Interaction::Normal => pass_node(base, list, Phase::Base),
        Interaction::Hovered => {
            let b = pass_node(base, list, Phase::Base);
            pass_node(b, list, Phase::Hover)
        },
        Interaction::Pressed => {
            let b = pass_node(base, list, Phase::Base);
            let h = pass_node(b, list, Phase::Hover);
            pass_node(h, list, Phase::Pressed)
        },
    }
}

/// Resolve a class list's text style at an interaction state.
pub fn resolve_text(list: &Vec<StyleEntry>, state: Interaction, base: TextStyle) -> (r: TextStyle)
    ensures
        r == spec_resolve_text(list@, state, base),
{
    match state {
        Interaction::Normal => pass_text(base, list, Phase::Base),
        Interaction::Hovered => {
            let b = pass_text(base, list, Phase::Base);
            pass_text(b, list, Phase::Hover)
        },
        Interaction::Pressed => {
            let b = pass_text(base, list, Phase::Base);
            let h = pass_text(b, list, Phase::Hover);
            pass_text(h, list, Phase::Pressed)
        },
    }
}

/// The style-bearing field of a node that an atom writes, if any; atoms that
/// only touch text styles write no node field.
#[derive(Clone, Copy, PartialEq, Eq, Structural, Debug)]
pub enum NodeField {
    Display,
    Direction,
    Width,
    Height,
    Align,
    Justify,
    Background,
    Visibility,
    Padding(PadEdge),
}

/// The node field an atom writes.
pub open spec fn spec_node_field(a: Atom) -> Option<NodeField> {
    match a {
        Atom::Flex => Some(NodeField::Display),
        Atom::FlexCol => Some(NodeField::Direction),
        Atom::FlexRow => Some(NodeField::Direction),
        Atom::Width(_) => Some(NodeField::Width),
        Atom::Height(_) => Some(NodeField::Height),
        Atom::ItemsCenter => Some(NodeField::Align),
        Atom::ItemsStart => Some(NodeField::Align),
        Atom::ItemsEnd => Some(NodeField::Align),
        Atom::JustifyCenter => Some(NodeField::Justify),
        Atom::JustifyBetween => Some(NodeField::Justify),
        Atom::JustifyAround => Some(NodeField::Justify),
        Atom::JustifyEvenly => Some(NodeField::Justify),
        Atom::JustifyStart => Some(NodeField::Justify),
        Atom::JustifyEnd => Some(NodeField::Justify),
        Atom::BgColor(_) => Some(NodeField::Background),
        Atom::TextColor(_) => None,
        Atom::TextSize(_) => None,
        Atom::FontFamily(_) => None,
        Atom::Visible => Some(NodeField::Visibility),
        Atom::Invisible => Some(NodeField::Visibility),
        Atom::AlwaysVisible => Some(NodeField::Visibility),
        Atom::Padding(e, _) => Some(NodeField::Padding(e)),
    }
}

/// The text-style field an atom writes, if any: 0 the font, 1 the size,
/// 2 the color.
pub open spec fn spec_text_field(a: Atom) -> Option<u8> {
    match a {
        Atom::FontFamily(_) => Some(0u8),
        Atom::TextSize(_) => Some(1u8),
        Atom::TextColor(_) => Some(2u8),
        _ => None,
    }
}

/// Law: applying the same atom twice in a row to a node style yields the same
/// result as applying it once — every shipped atom sets its field, it never
/// toggles or accumulates.
pub proof fn lemma_atom_idempotent_node(s: NodeStyle, a: Atom)
    ensures
        spec_apply_node(spec_apply_node(s, a), a) == spec_apply_node(s, a),
{
}

/// Law: applying the same atom twice in a row to a text style yields the same
/// result as applying it once.
pub proof fn lemma_atom_idempotent_text(s: TextStyle, a: Atom)
    ensures
        spec_apply_text(spec_apply_text(s, a), a) == spec_apply_text(s, a),
{
}

/// Law: of two atoms that write the same node field, the later one wins —
/// applying `a` and then `b` leaves exactly what `b` alone would leave,
/// whatever `a` set.
pub proof fn lemma_last_writer_wins_node(s: NodeStyle, a: Atom, b: Atom)
    requires
        spec_node_field(a) is Some,
        spec_node_field(a) == spec_node_field(b),
    ensures
        spec_apply_node(spec_apply_node(s, a), b) == spec_apply_node(s, b),
{
}

/// Law: of two atoms that write the same text-style field, the later one wins.
pub proof fn lemma_last_writer_wins_text(s: TextStyle, a: Atom, b: Atom)
    requires
        spec_text_field(a) is Some,
        spec_text_field(a) == spec_text_field(b),
    ensures
        spec_apply_text(spec_apply_text(s, a), b) == spec_apply_text(s, b),
{
}

/// Law (class-list form): a class list whose two atoms write the same node
/// field resolves, at every interaction state, to exactly what the later
/// atom alone would set — whatever the earlier atom set.
pub proof fn lemma_last_writer_wins_class(a: Atom, b: Atom, state: Interaction, base: NodeStyle)
    requires
        spec_node_field(a) is Some,
        spec_node_field(a) == spec_node_field(b),
    ensures
        spec_resolve_node(
            seq![
                StyleEntry { phase: Phase::Base, atom: a },
                StyleEntry { phase: Phase::Base, atom: b },
            ],
            state,
            base,
        ) == spec_resolve_node(seq![StyleEntry { phase: Phase::Base, atom: b }], state, base),
{
    let ea = StyleEntry { phase: Phase::Base, atom: a };
    let eb = StyleEntry { phase: Phase::Base, atom: b };
    let both = seq![ea, eb];
    let only_b = seq![eb];
    reveal_with_fuel(spec_pass_node, 4);
    assert(both.drop_first() =~= only_b);
    assert(only_b.drop_first() =~= Seq::<StyleEntry>::empty());
    assert forall|s: NodeStyle, ph: Phase|
        #[trigger] spec_pass_node(s, both, ph) == spec_pass_node(s, only_b, ph) by {
        if ph == Phase::Base {
            lemma_last_writer_wins_node(s, a, b);
        }
    }
}

/// The entries of a class list tagged with one phase, applied in order and
/// unconditionally.
pub open spec fn spec_apply_entries_node(s: NodeStyle, entries: Seq<StyleEntry>) -> NodeStyle
    decreases entries.len(),
{
    if entries.len() == 0 {
        s
    } else {
        spec_apply_entries_node(spec_apply_node(s, entries[0].atom), entries.drop_first())
    }
}

/// A pass extended by one entry at the end runs the pass and then the step.
proof fn lemma_pass_node_push(s: NodeStyle, list: Seq<StyleEntry>, e: StyleEntry, ph: Phase)
    ensures
        spec_pass_node(s, list.push(e), ph) == spec_step_node(spec_pass_node(s, list, ph), e, ph),
    decreases list.len(),
{
    if list.len() == 0 {
        assert(spec_pass_node(s, list, ph) == s);
        assert(list.push(e).len() == 1);
        assert(list.push(e)[0] == e);
        assert(list.push(e).drop_first() =~= Seq::<StyleEntry>::empty());
        assert(spec_pass_node(spec_step_node(s, e, ph), Seq::<StyleEntry>::empty(), ph)
            == spec_step_node(s, e, ph));
        assert(spec_pass_node(s, list.push(e), ph) == spec_pass_node(
            spec_step_node(s, list.push(e)[0], ph),
            list.push(e).drop_first(),
            ph,
        ));
    } else {
        assert(list.push(e)[0] == list[0]);
        assert(list.push(e).drop_first() =~= list.drop_first().push(e));
        lemma_pass_node_push(spec_step_node(s, list[0], ph), list.drop_first(), e, ph);
    }
}

/// An unconditional application extended by one entry at the end.
proof fn lemma_apply_entries_node_push(s: NodeStyle, entries: Seq<StyleEntry>, e: StyleEntry)
    ensures
        spec_apply_entries_node(s, entries.push(e)) == spec_apply_node(
            spec_apply_entries_node(s, entries),
            e.atom,
        ),
    decreases entries.len(),
{
    if entries.len() == 0 {
        assert(spec_apply_entries_node(s, entries) == s);
        assert(entries.push(e)[0] == e);
        assert(entries.push(e).drop_first() =~= Seq::<StyleEntry>::empty());
        assert(spec_apply_entries_node(s, entries.push(e)) == spec_apply_entries_node(
            spec_apply_node(s, entries.push(e)[0].atom),
            entries.push(e).drop_first(),
        ));
    } else {
        assert(entries.push(e)[0] == entries[0]);
        assert(entries.push(e).drop_first() =~= entries.drop_first().push(e));
        lemma_apply_entries_node_push(
            spec_apply_node(s, entries[0].atom),
            entries.drop_first(),
            e,
        );
    }
}

/// Law: one pass of a class list applies exactly the entries tagged with that
/// phase, in list order — entries of the other phases contribute nothing.
pub proof fn lemma_pass_node_is_tagged_entries(s: NodeStyle, list: Seq<StyleEntry>, ph: Phase)
    ensures
        spec_pass_node(s, list, ph) == spec_apply_entries_node(
            s,
            list.filter(|e: StyleEntry| e.phase == ph),
        ),
    decreases list.len(),
{
    let pred = |e: StyleEntry| e.phase == ph;
    if list.len() == 0 {
        assert(list.filter(pred) =~= Seq::<StyleEntry>::empty());
    } else {
        let l0 = list.drop_last();
        let x = list.last();
        lemma_pass_node_is_tagged_entries(s, l0, ph);
        assert(l0.push(x) =~= list);
        lemma_pass_node_push(s, l0, x, ph);
        reveal_with_fuel(Seq::filter, 2);
        if pred(x) {
            lemma_apply_entries_node_push(s, l0.filter(pred), x);
        }
    }
}

/// Law: style resolution is monotonic in the interaction state.  For states
/// `s1 < s2` in the order Normal < Hovered < Pressed, the style resolved for
/// `s2` is exactly the style resolved for `s1` with the `s2`-tagged entries'
/// mutations additionally applied, in list order.
pub proof fn lemma_resolve_monotonic_node(list: Seq<StyleEntry>, base: NodeStyle)
    ensures
        spec_resolve_node(list, Interaction::Hovered, base) == spec_apply_entries_node(
            spec_resolve_node(list, Interaction::Normal, base),
            list.filter(|e: StyleEntry| e.phase == Phase::Hover),
        ),
        spec_resolve_node(list, Interaction::Pressed, base) == spec_apply_entries_node(
            spec_resolve_node(list, Interaction::Hovered, base),
            list.filter(|e: StyleEntry| e.phase == Phase::Pressed),
        ),
{
    lemma_pass_node_is_tagged_entries(
        spec_resolve_node(list, Interaction::Normal, base),
        list,
        Phase::Hover,
    );
    lemma_pass_node_is_tagged_entries(
        spec_resolve_node(list, Interaction::Hovered, base),
        list,
        Phase::Pressed,
    );
}

/// The text analogue of [`spec_apply_entries_node`].
pub open spec fn spec_apply_entries_text(s: TextStyle, entries: Seq<StyleEntry>) -> TextStyle
    decreases entries.len(),
{
    if entries.len() == 0 {
        s
    } else {
        spec_apply_entries_text(spec_apply_text(s, entries[0].atom), entries.drop_first())
    }
}

proof fn lemma_pass_text_push(s: TextStyle, list: Seq<StyleEntry>, e: StyleEntry, ph: Phase)
    ensures
        spec_pass_text(s, list.push(e), ph) == spec_step_text(spec_pass_text(s, list, ph), e, ph),
    decreases list.len(),
{
    if list.len() == 0 {
        assert(spec_pass_text(s, list, ph) == s);
        assert(list.push(e)[0] == e);
        assert(list.push(e).drop_first() =~= Seq::<StyleEntry>::empty());
        assert(spec_pass_text(s, list.push(e), ph) == spec_pass_text(
            spec_step_text(s, list.push(e)[0], ph),
            list.push(e).drop_first(),
            ph,
        ));
    } else {
        assert(list.push(e)[0] == list[0]);
        assert(list.push(e).drop_first() =~= list.drop_first().push(e));
        lemma_pass_text_push(spec_step_text(s, list[0], ph), list.drop_first(), e, ph);
    }
}

proof fn lemma_apply_entries_text_push(s: TextStyle, entries: Seq<StyleEntry>, e: StyleEntry)
    ensures
        spec_apply_entries_text(s, entries.push(e)) == spec_apply_text(
            spec_apply_entries_text(s, entries),
            e.atom,
        ),
    decreases entries.len(),
{
    if entries.len() == 0 {
        assert(spec_apply_entries_text(s, entries) == s);
        assert(entries.push(e)[0] == e);
        assert(entries.push(e).drop_first() =~= Seq::<StyleEntry>::empty());
        assert(spec_apply_entries_text(s, entries.push(e)) == spec_apply_entries_text(
            spec_apply_text(s, entries.push(e)[0].atom),
            entries.push(e).drop_first(),
        ));
    } else {
        assert(entries.push(e)[0] == entries[0]);
        assert(entries.push(e).drop_first() =~= entries.drop_first().push(e));
        lemma_apply_entries_text_push(
            spec_apply_text(s, entries[0].atom),
            entries.drop_first(),
            e,
        );
    }
}

/// The text analogue of [`lemma_pass_node_is_tagged_entries`].
pub proof fn lemma_pass_text_is_tagged_entries(s: TextStyle, list: Seq<StyleEntry>, ph: Phase)
    ensures
        spec_pass_text(s, list, ph) == spec_apply_entries_text(
            s,
            list.filter(|e: StyleEntry| e.phase == ph),
        ),
    decreases list.len(),
{
    let pred = |e: StyleEntry| e.phase == ph;
    if list.len() == 0 {
        assert(list.filter(pred) =~= Seq::<StyleEntry>::empty());
    } else {
        let l0 = list.drop_last();
        let x = list.last();
        lemma_pass_text_is_tagged_entries(s, l0, ph);
        assert(l0.push(x) =~= list);
        lemma_pass_text_push(s, l0, x, ph);
        reveal_with_fuel(Seq::filter, 2);
        if pred(x) {
            lemma_apply_entries_text_push(s, l0.filter(pred), x);
        }
    }
}

/// The text analogue of [`lemma_resolve_monotonic_node`].
pub proof fn lemma_resolve_monotonic_text(list: Seq<StyleEntry>, base: TextStyle)
    ensures
        spec_resolve_text(list, Interaction::Hovered, base) == spec_apply_entries_text(
            spec_resolve_text(list, Interaction::Normal, base),
            list.filter(|e: StyleEntry| e.phase == Phase::Hover),
        ),
        spec_resolve_text(list, Interaction::Pressed, base) == spec_apply_entries_text(
            spec_resolve_text(list, Interaction::Hovered, base),
            list.filter(|e: StyleEntry| e.phase == Phase::Pressed),
        ),
{
    lemma_pass_text_is_tagged_entries(
        spec_resolve_text(list, Interaction::Normal, base),
        list,
        Phase::Hover,
    );
    lemma_pass_text_is_tagged_entries(
        spec_resolve_text(list, Interaction::Hovered, base),
        list,
        Phase::Pressed,
    );
}

} // verus!
