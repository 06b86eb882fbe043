//! The live UI entity graph and the operations that run against it.
//!
//! Lowering consumes an [`Element`] tree depth-first, pre-order, appending
//! one node per styled element; fragments lower their children under the
//! current parent and introduce no node of their own.  A node's index in the
//! arena is its entity id; parents always precede their children, and a root
//! node is its own parent.  Despawning a subtree marks it dead recursively;
//! the per-frame systems then only ever copy precomputed snapshots around.

use vstd::prelude::*;
use crate::elements::{
    Element, ImageData, InteractionBackgroundColor, InteractionStyle, InteractionTextStyle,
    MaterialData, NodeData, TextData, TextSection,
};
use crate::stylesheet::{
    Interaction, LayoutStyle, NodeStyle, TextStyle, Val, Visibility, spec_layout_default,
    spec_transparent,
};

verus! {

/// Which primitive a node was lowered from.
#[derive(Clone, Copy, PartialEq, Eq, Structural, Debug)]
pub enum NodeKind {
    Div,
    Button,
    Image,
    Text,
    Material,
}

/// The mathematical value of one text run.
pub struct TextSectionV {
    pub text: Seq<char>,
    pub style: TextStyle,
}

impl View for TextSection {
    type V = TextSectionV;

    open spec fn view(&self) -> TextSectionV {
        TextSectionV { text: self.text@, style: self.style }
    }
}

/// One live UI entity.
#[derive(Debug)]
pub struct UiNode {
    /// Dead nodes stay in the arena but are gone for every query.
    pub alive: bool,
    /// The index of the parent node; a root node is its own parent.
    pub parent: usize,
    pub kind: NodeKind,
    /// The current interaction state, on nodes that track one.
    pub interaction: Option<Interaction>,
    /// The current style components.
    pub style: NodeStyle,
    /// Layout snapshots, on styled nodes.
    pub styles: Option<InteractionStyle>,
    /// Background snapshots, on styled nodes.
    pub backgrounds: Option<InteractionBackgroundColor>,
    /// Text-style snapshots, on text nodes.
    pub text_styles: Option<InteractionTextStyle>,
    /// The text runs of a text node; empty on every other kind.
    pub sections: Vec<TextSection>,
    /// The texture handle of an image node.
    pub texture: Option<u64>,
    /// The material handle of a material node.
    pub material: Option<u64>,
    /// User marker components attached to this entity.
    pub tags: Vec<u64>,
}

/// The mathematical value of one live UI entity.
pub struct UiNodeV {
    pub alive: bool,
    pub parent: int,
    pub kind: NodeKind,
    pub interaction: Option<Interaction>,
    pub style: NodeStyle,
    pub styles: Option<InteractionStyle>,
    pub backgrounds: Option<InteractionBackgroundColor>,
    pub text_styles: Option<InteractionTextStyle>,
    pub sections: Seq<TextSectionV>,
    pub texture: Option<u64>,
    pub material: Option<u64>,
    pub tags: Seq<u64>,
}

impl View for UiNode {
    type V = UiNodeV;

    open spec fn view(&self) -> UiNodeV {
        UiNodeV {
            alive: self.alive,
            parent: self.parent as int,
            kind: self.kind,
            interaction: self.interaction,
            style: self.style,
            styles: self.styles,
            backgrounds: self.backgrounds,
            text_styles: self.text_styles,
            sections: self.sections@.map_values(|s: TextSection| s@),
            texture: self.texture,
            material: self.material,
            tags: self.tags@,
        }
    }
}

/// The arena of live UI entities; an entity id is an index into `nodes`.
#[derive(Debug)]
pub struct UiWorld {
    pub nodes: Vec<UiNode>,
}

impl View for UiWorld {
    type V = Seq<UiNodeV>;

    open spec fn view(&self) -> Seq<UiNodeV> {
        self.nodes@.map_values(|n: UiNode| n@)
    }
}

impl UiWorld {
    /// An empty entity graph.
    pub fn new() -> (w: UiWorld)
        ensures
            w@.len() == 0,
    {
        let w = UiWorld { nodes: Vec::new() };
        proof {
            assert(w@ =~= Seq::<UiNodeV>::empty());
        }
        w
    }

    /// The number of entities ever spawned, dead ones included.
    pub fn len(&self) -> (n: usize)
        ensures
            n == self@.len(),
    {
        self.nodes.len()
    }
}

/// The node a `Div` element lowers to.
pub open spec fn spec_div_node(parent: int, d: NodeData) -> UiNodeV {
    UiNodeV {
        alive: true,
        parent,
        kind: NodeKind::Div,
        interaction: Some(Interaction::Normal),
        style: d.bundle,
        styles: Some(d.styles),
        backgrounds: Some(d.backgrounds),
        text_styles: None,
        sections: Seq::empty(),
        texture: None,
        material: None,
        tags: Seq::empty(),
    }
}

/// The node a `Button` element lowers to.
pub open spec fn spec_button_node(parent: int, d: NodeData) -> UiNodeV {
    UiNodeV { kind: NodeKind::Button, ..spec_div_node(parent, d) }
}

/// The node an `Image` element lowers to.
pub open spec fn spec_image_node(parent: int, d: ImageData) -> UiNodeV {
    UiNodeV { kind: NodeKind::Image, texture: Some(d.texture), ..spec_div_node(parent, d.node) }
}

/// The node a `Text` element lowers to.
pub open spec fn spec_text_node(parent: int, d: TextData) -> UiNodeV {
    UiNodeV {
        alive: true,
        parent,
        kind: NodeKind::Text,
        interaction: Some(Interaction::Normal),
        style: NodeStyle {
            layout: d.layout,
            background: spec_transparent(),
            visibility: d.visibility,
        },
        styles: None,
        backgrounds: None,
        text_styles: Some(d.styles),
        sections: d.sections@.map_values(|s: TextSection| s@),
        texture: None,
        material: None,
        tags: Seq::empty(),
    }
}

/// The node a `Dynamic` (material) element lowers to; material nodes carry
/// layout snapshots but no interaction state of their own.
pub open spec fn spec_material_node(parent: int, d: MaterialData) -> UiNodeV {
    UiNodeV {
        alive: true,
        parent,
        kind: NodeKind::Material,
        interaction: None,
        style: d.bundle,
        styles: Some(d.styles),
        backgrounds: None,
        text_styles: None,
        sections: Seq::empty(),
        texture: None,
        material: Some(d.material),
        tags: Seq::empty(),
    }
}

/// `n` with the marker component `tag` attached.
pub open spec fn spec_tagged_node(n: UiNodeV, tag: u64) -> UiNodeV {
    UiNodeV { tags: n.tags.push(tag), ..n }
}

/// Lowering one element under `parent`: the arena afterwards and the id the
/// lowering returns.  A fragment returns its parent's id; every other
/// element returns the id of the node it appended.
pub open spec fn spec_spawn(nodes: Seq<UiNodeV>, parent: int, el: Element) -> (Seq<UiNodeV>, int)
    decreases el,
{
    match el {
        Element::Fragment(children) => (spec_spawn_all(nodes, parent, children@), parent),
        Element::Div(d, children) => {
            let id = nodes.len() as int;
            (spec_spawn_all(nodes.push(spec_div_node(parent, d)), id, children@), id)
        },
        Element::Button(d, children) => {
            let id = nodes.len() as int;
            (spec_spawn_all(nodes.push(spec_button_node(parent, d)), id, children@), id)
        },
        Element::Image(d) => (nodes.push(spec_image_node(parent, d)), nodes.len() as int),
        Element::Text(d) => (nodes.push(spec_text_node(parent, d)), nodes.len() as int),
        Element::Dynamic(d, children) => {
            let id = nodes.len() as int;
            (spec_spawn_all(nodes.push(spec_material_node(parent, d)), id, children@), id)
        },
        Element::Tagged(tag, inner) => {
            let (after, id) = spec_spawn(nodes, parent, *inner);
            (after.update(id, spec_tagged_node(after[id], tag)), id)
        },
    }
}

/// Lowering a list of elements in order under one parent.
pub open spec fn spec_spawn_all(nodes: Seq<UiNodeV>, parent: int, els: Seq<Element>) -> Seq<UiNodeV>
    decreases els,
{
    if els.len() == 0 {
        nodes
    } else {
        spec_spawn_all(spec_spawn(nodes, parent, els[0]).0, parent, els.drop_first())
    }
}

/// Bounds of one lowering step: the arena never shrinks and the returned id
/// is a valid index afterwards.
pub proof fn lemma_spawn_bounds(nodes: Seq<UiNodeV>, parent: int, el: Element)
    requires
        0 <= parent < nodes.len(),
    ensures
        nodes.len() <= spec_spawn(nodes, parent, el).0.len(),
        0 <= spec_spawn(nodes, parent, el).1 < spec_spawn(nodes, parent, el).0.len(),
    decreases el,
{
    match el {
        Element::Fragment(children) => {
            lemma_spawn_all_bounds(nodes, parent, children@);
        },
        Element::Div(d, children) => {
            lemma_spawn_all_bounds(nodes.push(spec_div_node(parent, d)), nodes.len() as int, children@);
        },
        Element::Button(d, children) => {
            lemma_spawn_all_bounds(
                nodes.push(spec_button_node(parent, d)),
                nodes.len() as int,
                children@,
            );
        },
        Element::Image(_) => {},
        Element::Text(_) => {},
        Element::Dynamic(d, children) => {
            lemma_spawn_all_bounds(
                nodes.push(spec_material_node(parent, d)),
                nodes.len() as int,
                children@,
            );
        },
        Element::Tagged(_, inner) => {
            lemma_spawn_bounds(nodes, parent, *inner);
        },
    }
}

/// Bounds of lowering a list: the arena never shrinks.
pub proof fn lemma_spawn_all_bounds(nodes: Seq<UiNodeV>, parent: int, els: Seq<Element>)
    requires
        0 <= parent < nodes.len(),
    ensures
        nodes.len() <= spec_spawn_all(nodes, parent, els).len(),
    decreases els,
{
    if els.len() > 0 {
        lemma_spawn_bounds(nodes, parent, els[0]);
        lemma_spawn_all_bounds(spec_spawn(nodes, parent, els[0]).0, parent, els.drop_first());
    }
}

/// The node a `Div` element lowers to.
fn div_node(parent: usize, d: NodeData) -> (n: UiNode)
    ensures
        n@ == spec_div_node(parent as int, d),
{
    let n = UiNode {
        alive: true,
        parent,
        kind: NodeKind::Div,
        interaction: Some(Interaction::Normal),
        style: d.bundle,
        styles: Some(d.styles),
        backgrounds: Some(d.backgrounds),
        text_styles: None,
        sections: Vec::new(),
        texture: None,
        material: None,
        tags: Vec::new(),
    };
    proof {
        assert(n@.sections =~= Seq::<TextSectionV>::empty());
        assert(n@.tags =~= Seq::<u64>::empty());
    }
    n
}

/// The node a `Button` element lowers to.
fn button_node(parent: usize, d: NodeData) -> (n: UiNode)
    ensures
        n@ == spec_button_node(parent as int, d),
{
    let mut n = div_node(parent, d);
    n.kind = NodeKind::Button;
    n
}

/// The node an `Image` element lowers to.
fn image_node(parent: usize, d: ImageData) -> (n: UiNode)
    ensures
        n@ == spec_image_node(parent as int, d),
{
    let mut n = div_node(parent, d.node);
    n.kind = NodeKind::Image;
    n.texture = Some(d.texture);
    n
}

/// The node a `Text` element lowers to.
fn text_node(parent: usize, d: TextData) -> (n: UiNode)
    ensures
        n@ == spec_text_node(parent as int, d),
{
    let n = UiNode {
        alive: true,
        parent,
        kind: NodeKind::Text,
        interaction: Some(Interaction::Normal),
        style: NodeStyle {
            layout: d.layout,
            background: crate::stylesheet::transparent(),
            visibility: d.visibility,
        },
        styles: None,
        backgrounds: None,
        text_styles: Some(d.styles),
        sections: d.sections,
        texture: None,
        material: None,
        tags: Vec::new(),
    };
    proof {
        assert(n@.tags =~= Seq::<u64>::empty());
    }
    n
}

/// The node a `Dynamic` (material) element lowers to.
fn material_node(parent: usize, d: MaterialData) -> (n: UiNode)
    ensures
        n@ == spec_material_node(parent as int, d),
{
    let n = UiNode {
        alive: true,
        parent,
        kind: NodeKind::Material,
        interaction: None,
        style: d.bundle,
        styles: Some(d.styles),
        backgrounds: None,
        text_styles: None,
        sections: Vec::new(),
        texture: None,
        material: Some(d.material),
        tags: Vec::new(),
    };
    proof {
        assert(n@.sections =~= Seq::<TextSectionV>::empty());
        assert(n@.tags =~= Seq::<u64>::empty());
    }
    n
}

/// A mutable borrow of one node of the arena.
pub(crate) fn node_at_mut(v: &mut Vec<UiNode>, i: usize) -> (r: &mut UiNode)
    requires
        i < old(v)@.len(),
    ensures
        *r == old(v)@[i as int],
        final(v)@ == old(v)@.update(i as int, *final(r)),
{
    &mut v[i]
}

/// Lower an element tree under the live node `parent`, appending one node
/// per styled element, depth-first and pre-order.  Returns the id of the
/// node the element lowered to; a fragment returns `parent` itself.
pub fn spawn_element(world: &mut UiWorld, parent: usize, el: Element) -> (id: usize)
    requires
        parent < old(world)@.len(),
    ensures
        final(world)@ == spec_spawn(old(world)@, parent as int, el).0,
        id as int == spec_spawn(old(world)@, parent as int, el).1,
    decreases el,
{
    match el {
        Element::Fragment(children) => {
            proof {
                assert(decreases_to!(el => children));
                assert(decreases_to!(children => children@));
                assert(decreases_to!(el => children@));
            }
            spawn_list(world, parent, children);
            parent
        },
        Element::Div(d, children) => {
            let id = world.nodes.len();
            let n = div_node(parent, d);
            let ghost pre = world@;
            world.nodes.push(n);
            proof {
                assert(world@ =~= pre.push(spec_div_node(parent as int, d)));
                assert(decreases_to!(el => children));
                assert(decreases_to!(children => children@));
                assert(decreases_to!(el => children@));
            }
            spawn_list(world, id, children);
            id
        },
        Element::Button(d, children) => {
            let id = world.nodes.len();
            let n = button_node(parent, d);
            let ghost pre = world@;
            world.nodes.push(n);
            proof {
                assert(world@ =~= pre.push(spec_button_node(parent as int, d)));
                assert(decreases_to!(el => children));
                assert(decreases_to!(children => children@));
                assert(decreases_to!(el => children@));
            }
            spawn_list(world, id, children);
            id
        },
        Element::Image(d) => {
            let id = world.nodes.len();
            let n = image_node(parent, d);
            let ghost pre = world@;
            world.nodes.push(n);
            proof {
                assert(world@ =~= pre.push(spec_image_node(parent as int, d)));
            }
            id
        },
        Element::Text(d) => {
            let id = world.nodes.len();
            let n = text_node(parent, d);
            let ghost pre = world@;
            world.nodes.push(n);
            proof {
                assert(world@ =~= pre.push(spec_text_node(parent as int, d)));
            }
            id
        },
        Element::Dynamic(d, children) => {
            let id = world.nodes.len();
            let n = material_node(parent, d);
            let ghost pre = world@;
            world.nodes.push(n);
            proof {
                assert(world@ =~= pre.push(spec_material_node(parent as int, d)));
                assert(decreases_to!(el => children));
                assert(decreases_to!(children => children@));
                assert(decreases_to!(el => children@));
            }
            spawn_list(world, id, children);
            id
        },
        Element::Tagged(tag, inner) => {
            let inner_el = *inner;
            let ghost pre = world@;
            let id = spawn_element(world, parent, inner_el);
            proof {
                lemma_spawn_bounds(pre, parent as int, inner_el);
            }
            let ghost mid = world@;
            let n = node_at_mut(&mut world.nodes, id);
            n.tags.push(tag);
            proof {
                assert(world@ =~= mid.update(id as int, spec_tagged_node(mid[id as int], tag)));
            }
            id
        },
    }
}

/// Lower a list of elements in order under one live parent.
pub fn spawn_list(world: &mut UiWorld, parent: usize, els: Vec<Element>)
    requires
        parent < old(world)@.len(),
    ensures
        final(world)@ == spec_spawn_all(old(world)@, parent as int, els@),
    decreases els@,
{
    let mut rest = els;
    if rest.len() == 0 {
        return ;
    }
    let first = rest.remove(0);
    proof {
        assert(rest@ =~= els@.drop_first());
        assert(decreases_to!(els@ => first));
    }
    let ghost pre = world@;
    spawn_element(world, parent, first);
    proof {
        lemma_spawn_bounds(pre, parent as int, first);
        assert(decreases_to!(els@ => rest@));
    }
    spawn_list(world, parent, rest);
}

/// Law: lowering a fragment is transparent.  It leaves exactly the arena
/// that lowering each child in order under the same parent leaves — a
/// fragment introduces zero nodes of its own — and returns the parent's id.
pub proof fn lemma_fragment_transparent(nodes: Seq<UiNodeV>, parent: int, children: Vec<Element>)
    ensures
        spec_spawn(nodes, parent, Element::Fragment(children)).0 == spec_spawn_all(
            nodes,
            parent,
            children@,
        ),
        spec_spawn(nodes, parent, Element::Fragment(children)).1 == parent,
{
}

/// The full-viewport flex container a screen is mounted under, tagged with
/// the screen's marker component.
pub open spec fn spec_root_node(idx: int, tag: u64) -> UiNodeV {
    UiNodeV {
        alive: true,
        parent: idx,
        kind: NodeKind::Div,
        interaction: None,
        style: NodeStyle {
            layout: LayoutStyle {
                width: Val::Percent(100),
                height: Val::Percent(100),
                ..spec_layout_default()
            },
            background: spec_transparent(),
            visibility: Visibility::Inherited,
        },
        styles: None,
        backgrounds: None,
        text_styles: None,
        sections: Seq::empty(),
        texture: None,
        material: None,
        tags: seq![tag],
    }
}

/// What spawning a whole screen leaves: the tagged root container, then the
/// lowered tree under it.
pub open spec fn spec_spawn_root(nodes: Seq<UiNodeV>, tag: u64, tree: Element) -> (
    Seq<UiNodeV>,
    int,
) {
    let id = nodes.len() as int;
    (spec_spawn(nodes.push(spec_root_node(id, tag)), id, tree).0, id)
}

/// Mount a whole screen: spawn a full-viewport flex container tagged with
/// the screen marker `tag`, and lower `tree` under it.  The tag enables a
/// later bulk despawn of the entire screen.
pub fn spawn_root_element(world: &mut UiWorld, tag: u64, tree: Element) -> (id: usize)
    ensures
        final(world)@ == spec_spawn_root(old(world)@, tag, tree).0,
        id as int == spec_spawn_root(old(world)@, tag, tree).1,
{
    let id = world.nodes.len();
    let mut tags: Vec<u64> = Vec::new();
    tags.push(tag);
    let n = UiNode {
        alive: true,
        parent: id,
        kind: NodeKind::Div,
        interaction: None,
        style: NodeStyle {
            layout: LayoutStyle {
                width: Val::Percent(100),
                height: Val::Percent(100),
                ..LayoutStyle::default()
            },
            background: crate::stylesheet::transparent(),
            visibility: Visibility::Inherited,
        },
        styles: None,
        backgrounds: None,
        text_styles: None,
        sections: Vec::new(),
        texture: None,
        material: None,
        tags,
    };
    proof {
        assert(n@.sections =~= Seq::<TextSectionV>::empty());
        assert(n@.tags =~= seq![tag]);
    }
    let ghost pre = world@;
    world.nodes.push(n);
    proof {
        assert(world@ =~= pre.push(spec_root_node(id as int, tag)));
    }
    let _tree_id = spawn_element(world, id, tree);
    id
}

/// Well-formedness of the arena at one node: its parent precedes it (a root
/// is its own parent), and if the node is live so is its parent.
pub open spec fn spec_wf_at(nodes: Seq<UiNodeV>, i: int) -> bool {
    &&& 0 <= nodes[i].parent <= i
    &&& (nodes[i].alive && nodes[i].parent != i ==> nodes[nodes[i].parent].alive)
}

/// Well-formedness of the arena: every node satisfies [`spec_wf_at`].
pub open spec fn spec_wf(nodes: Seq<UiNodeV>) -> bool {
    forall|i: int| 0 <= i < nodes.len() ==> #[trigger] spec_wf_at(nodes, i)
}

/// Lowering preserves well-formedness, keeps the liveness and parent of
/// every pre-existing node, and returns a live node.
#[verifier::rlimit(60)]
pub proof fn lemma_spawn_preserves_wf(nodes: Seq<UiNodeV>, parent: int, el: Element)
    requires
        spec_wf(nodes),
        0 <= parent < nodes.len(),
        nodes[parent].alive,
    ensures
        spec_wf(spec_spawn(nodes, parent, el).0),
        forall|i: int|
            0 <= i < nodes.len() ==> (#[trigger] spec_spawn(nodes, parent, el).0[i]).alive
                == nodes[i].alive && spec_spawn(nodes, parent, el).0[i].parent == nodes[i].parent,
        spec_spawn(nodes, parent, el).0[spec_spawn(nodes, parent, el).1].alive,
    decreases el,
{
    lemma_spawn_bounds(nodes, parent, el);
    match el {
        Element::Fragment(children) => {
            lemma_spawn_all_preserves_wf(nodes, parent, children@);
        },
        Element::Div(d, children) => {
            lemma_wf_push(nodes, parent, spec_div_node(parent, d));
            let pushed = nodes.push(spec_div_node(parent, d));
            lemma_spawn_all_bounds(pushed, nodes.len() as int, children@);
            lemma_spawn_all_preserves_wf(pushed, nodes.len() as int, children@);
        },
        Element::Button(d, children) => {
            lemma_wf_push(nodes, parent, spec_button_node(parent, d));
            let pushed = nodes.push(spec_button_node(parent, d));
            lemma_spawn_all_bounds(pushed, nodes.len() as int, children@);
            lemma_spawn_all_preserves_wf(pushed, nodes.len() as int, children@);
        },
        Element::Image(d) => {
            lemma_wf_push(nodes, parent, spec_image_node(parent, d));
        },
        Element::Text(d) => {
            lemma_wf_push(nodes, parent, spec_text_node(parent, d));
        },
        Element::Dynamic(d, children) => {
            lemma_wf_push(nodes, parent, spec_material_node(parent, d));
            let pushed = nodes.push(spec_material_node(parent, d));
            lemma_spawn_all_bounds(pushed, nodes.len() as int, children@);
            lemma_spawn_all_preserves_wf(pushed, nodes.len() as int, children@);
        },
        Element::Tagged(tag, inner) => {
            lemma_spawn_bounds(nodes, parent, *inner);
            lemma_spawn_preserves_wf(nodes, parent, *inner);
            let after = spec_spawn(nodes, parent, *inner).0;
            let id = spec_spawn(nodes, parent, *inner).1;
            let updated = after.update(id, spec_tagged_node(after[id], tag));
            assert forall|i: int| 0 <= i < updated.len() implies spec_wf_at(updated, i) by {
                assert(spec_wf_at(after, i));
            }
        },
    }
}

/// Pushing a live node whose parent is a live, earlier node keeps the arena
/// well formed.
proof fn lemma_wf_push(nodes: Seq<UiNodeV>, parent: int, n: UiNodeV)
    requires
        spec_wf(nodes),
        0 <= parent < nodes.len(),
        nodes[parent].alive,
        n.alive,
        n.parent == parent,
    ensures
        spec_wf(nodes.push(n)),
{
    let pushed = nodes.push(n);
    assert forall|i: int| 0 <= i < pushed.len() implies spec_wf_at(pushed, i) by {
        if i < nodes.len() {
            assert(spec_wf_at(nodes, i));
        }
    }
}

/// Lowering a list preserves well-formedness and the structure of
/// pre-existing nodes.
#[verifier::rlimit(60)]
pub proof fn lemma_spawn_all_preserves_wf(nodes: Seq<UiNodeV>, parent: int, els: Seq<Element>)
    requires
        spec_wf(nodes),
        0 <= parent < nodes.len(),
        nodes[parent].alive,
    ensures
        spec_wf(spec_spawn_all(nodes, parent, els)),
        forall|i: int|
            0 <= i < nodes.len() ==> (#[trigger] spec_spawn_all(nodes, parent, els)[i]).alive
                == nodes[i].alive && spec_spawn_all(nodes, parent, els)[i].parent
                == nodes[i].parent,
    decreases els,
{
    if els.len() > 0 {
        lemma_spawn_bounds(nodes, parent, els[0]);
        lemma_spawn_preserves_wf(nodes, parent, els[0]);
        let mid = spec_spawn(nodes, parent, els[0]).0;
        lemma_spawn_all_preserves_wf(mid, parent, els.drop_first());
        assert forall|i: int|
            0 <= i < nodes.len() implies (#[trigger] spec_spawn_all(nodes, parent, els)[i]).alive
                == nodes[i].alive && spec_spawn_all(nodes, parent, els)[i].parent
                == nodes[i].parent by {
            assert(mid[i].alive == nodes[i].alive && mid[i].parent == nodes[i].parent);
            assert(spec_spawn_all(mid, parent, els.drop_first())[i].alive == mid[i].alive
                && spec_spawn_all(mid, parent, els.drop_first())[i].parent == mid[i].parent);
        }
    }
}

/// Whether node `i` is `r` itself or lies below `r` in the parent chain.
/// Depends only on the parent links, never on liveness.
pub open spec fn spec_descendant(nodes: Seq<UiNodeV>, i: int, r: int) -> bool
    decreases i,
{
    if i < 0 || i >= nodes.len() {
        false
    } else if i == r {
        true
    } else if nodes[i].parent >= i || nodes[i].parent < 0 {
        false
    } else {
        spec_descendant(nodes, nodes[i].parent, r)
    }
}

/// `n`, dead.
pub open spec fn spec_killed(n: UiNodeV) -> UiNodeV {
    UiNodeV { alive: false, ..n }
}

/// A node below `r` in the index order cannot be `r`'s descendant.
proof fn lemma_descendant_lt(nodes: Seq<UiNodeV>, i: int, r: int)
    requires
        i < r,
    ensures
        !spec_descendant(nodes, i, r),
    decreases i,
{
    if 0 <= i < nodes.len() && 0 <= nodes[i].parent < i {
        lemma_descendant_lt(nodes, nodes[i].parent, r);
    }
}

/// Descent is decided by the parent links alone.
proof fn lemma_descendant_same_parents(a: Seq<UiNodeV>, b: Seq<UiNodeV>, i: int, r: int)
    requires
        a.len() == b.len(),
        forall|k: int| 0 <= k < a.len() ==> (#[trigger] a[k]).parent == b[k].parent,
    ensures
        spec_descendant(a, i, r) == spec_descendant(b, i, r),
    decreases i,
{
    if 0 <= i < a.len() && 0 <= a[i].parent < i && i != r {
        lemma_descendant_same_parents(a, b, a[i].parent, r);
    }
}

/// Despawn the subtree rooted at `root`: `root` and every transitive
/// descendant are marked dead; nothing else changes.
#[verifier::rlimit(60)]
pub fn despawn_recursive(world: &mut UiWorld, root: usize)
    requires
        root < old(world)@.len(),
        spec_wf(old(world)@),
    ensures
        final(world)@.len() == old(world)@.len(),
        forall|i: int|
            0 <= i < old(world)@.len() ==> final(world)@[i] == (if spec_descendant(
                old(world)@,
                i,
                root as int,
            ) {
                spec_killed(old(world)@[i])
            } else {
                old(world)@[i]
            }),
{
    let ghost pre = world@;
    let n = node_at_mut(&mut world.nodes, root);
    n.alive = false;
    proof {
        assert(world@ =~= pre.update(root as int, spec_killed(pre[root as int])));
        assert forall|i: int| 0 <= i < root implies !spec_descendant(pre, i, root as int) by {
            lemma_descendant_lt(pre, i, root as int);
        }
    }
    let len = world.nodes.len();
    let mut j: usize = root + 1;
    while j < len
        invariant
            root < j <= len,
            len == world@.len(),
            len == pre.len(),
            spec_wf(pre),
            forall|i: int|
                0 <= i < j ==> world@[i] == (if spec_descendant(pre, i, root as int) {
                    spec_killed(pre[i])
                } else {
                    pre[i]
                }),
            forall|i: int| j <= i < len ==> world@[i] == pre[i],
        decreases len - j,
    {
        let p = world.nodes[j].parent;
        proof {
            assert(world@[j as int] == pre[j as int]);
            assert(spec_wf_at(pre, j as int));
            assert(pre[j as int].parent == p as int);
        }
        let p_alive = world.nodes[p].alive;
        let j_alive = world.nodes[j].alive;
        proof {
            assert(world@[j as int] == pre[j as int]);
            assert(spec_wf_at(pre, j as int));
            assert(pre[j as int].parent == p as int);
            assert(0 <= p <= j);
            if p as int == j as int {
                assert(!spec_descendant(pre, j as int, root as int));
            } else {
                assert(world@[p as int].alive == p_alive);
                assert(spec_descendant(pre, j as int, root as int) == spec_descendant(
                    pre,
                    p as int,
                    root as int,
                ));
            }
        }
        if j_alive && !p_alive {
            let ghost mid = world@;
            let n = node_at_mut(&mut world.nodes, j);
            n.alive = false;
            proof {
                assert(world@ =~= mid.update(j as int, spec_killed(mid[j as int])));
            }
        }
        j += 1;
    }
}

/// Whether node `i` carries `tag`, or descends from a node that does: the
/// node is doomed when the screen tagged `tag` is despawned.
pub open spec fn spec_doomed(nodes: Seq<UiNodeV>, i: int, tag: u64) -> bool
    decreases i,
{
    if i < 0 || i >= nodes.len() {
        false
    } else if nodes[i].tags.contains(tag) {
        true
    } else if nodes[i].parent >= i || nodes[i].parent < 0 {
        false
    } else {
        spec_doomed(nodes, nodes[i].parent, tag)
    }
}

/// The doomed set restricted to roots before `bound`.
pub open spec fn spec_doomed_upto(nodes: Seq<UiNodeV>, i: int, tag: u64, bound: int) -> bool {
    exists|r: int|
        0 <= r < bound && (#[trigger] nodes[r]).tags.contains(tag) && spec_descendant(nodes, i, r)
}

/// A descendant of a tagged node is doomed.
proof fn lemma_desc_tag_doomed(nodes: Seq<UiNodeV>, i: int, r: int, tag: u64)
    requires
        spec_descendant(nodes, i, r),
        0 <= r < nodes.len(),
        nodes[r].tags.contains(tag),
    ensures
        spec_doomed(nodes, i, tag),
    decreases i,
{
    if i != r && 0 <= i < nodes.len() && 0 <= nodes[i].parent < i {
        lemma_desc_tag_doomed(nodes, nodes[i].parent, r, tag);
    }
}

/// Being doomed is exactly descending from some tagged node.
proof fn lemma_doomed_iff_upto_len(nodes: Seq<UiNodeV>, i: int, tag: u64)
    ensures
        spec_doomed(nodes, i, tag) == spec_doomed_upto(nodes, i, tag, nodes.len() as int),
    decreases i,
{
    if spec_doomed(nodes, i, tag) {
        if nodes[i].tags.contains(tag) {
            assert(spec_descendant(nodes, i, i));
        } else {
            lemma_doomed_iff_upto_len(nodes, nodes[i].parent, tag);
            let r = choose|r: int|
                0 <= r < nodes.len() && (#[trigger] nodes[r]).tags.contains(tag)
                    && spec_descendant(nodes, nodes[i].parent, r);
            if nodes[i].parent < r {
                lemma_descendant_lt(nodes, nodes[i].parent, r);
            }
            assert(spec_descendant(nodes, i, r));
        }
    }
    if spec_doomed_upto(nodes, i, tag, nodes.len() as int) {
        let r = choose|r: int|
            0 <= r < nodes.len() && (#[trigger] nodes[r]).tags.contains(tag) && spec_descendant(
                nodes,
                i,
                r,
            );
        lemma_desc_tag_doomed(nodes, i, r, tag);
    }
}

/// Killing a whole subtree keeps the arena well formed.
proof fn lemma_kill_subtree_preserves_wf(a: Seq<UiNodeV>, b: Seq<UiNodeV>, r: int)
    requires
        spec_wf(a),
        a.len() == b.len(),
        forall|i: int|
            0 <= i < a.len() ==> b[i] == (if spec_descendant(a, i, r) {
                spec_killed(a[i])
            } else {
                a[i]
            }),
    ensures
        spec_wf(b),
{
    assert forall|i: int| 0 <= i < b.len() implies spec_wf_at(b, i) by {
        assert(spec_wf_at(a, i));
        let p = a[i].parent;
        if b[i].alive && p != i {
            assert(!spec_descendant(a, i, r));
            assert(!spec_descendant(a, p, r));
        }
    }
}

/// Whether a node carries the marker component `tag`.
pub fn node_has_tag(n: &UiNode, tag: u64) -> (b: bool)
    ensures
        b == n@.tags.contains(tag),
{
    let mut j: usize = 0;
    while j < n.tags.len()
        invariant
            j <= n.tags@.len(),
            forall|k: int| 0 <= k < j ==> n.tags@[k] != tag,
        decreases n.tags@.len() - j,
    {
        if n.tags[j] == tag {
            return true;
        }
        j += 1;
    }
    false
}

/// Despawn every screen tagged with `tag`: each node carrying the tag and
/// every descendant of one is marked dead; nothing else changes.
#[verifier::rlimit(60)]
pub fn despawn_tagged(world: &mut UiWorld, tag: u64)
    requires
        spec_wf(old(world)@),
    ensures
        final(world)@.len() == old(world)@.len(),
        spec_wf(final(world)@),
        forall|i: int|
            0 <= i < old(world)@.len() ==> final(world)@[i] == (if spec_doomed(
                old(world)@,
                i,
                tag,
            ) {
                spec_killed(old(world)@[i])
            } else {
                old(world)@[i]
            }),
{
    let ghost pre = world@;
    let len = world.nodes.len();
    let mut r: usize = 0;
    while r < len
        invariant
            r <= len,
            len == world@.len(),
            len == pre.len(),
            spec_wf(pre),
            spec_wf(world@),
            forall|i: int|
                0 <= i < len ==> world@[i] == (if spec_doomed_upto(pre, i, tag, r as int) {
                    spec_killed(pre[i])
                } else {
                    pre[i]
                }),
        decreases len - r,
    {
        proof {
            assert(world@[r as int].tags == pre[r as int].tags);
        }
        let tagged = node_has_tag(&world.nodes[r], tag);
        let ghost mid = world@;
        if tagged {
            despawn_recursive(world, r);
            proof {
                assert forall|k: int| 0 <= k < len implies (#[trigger] mid[k]).parent
                    == pre[k].parent by {}
                assert forall|i: int|
                    0 <= i < len implies world@[i] == (if spec_doomed_upto(
                    pre,
                    i,
                    tag,
                    r + 1,
                ) {
                    spec_killed(pre[i])
                } else {
                    pre[i]
                }) by {
                    lemma_descendant_same_parents(mid, pre, i, r as int);
                    if spec_doomed_upto(pre, i, tag, r + 1) {
                        let k = choose|k: int|
                            0 <= k < r + 1 && (#[trigger] pre[k]).tags.contains(tag)
                                && spec_descendant(pre, i, k);
                        if k < r {
                            assert(spec_doomed_upto(pre, i, tag, r as int));
                        }
                    } else {
                        assert(!spec_doomed_upto(pre, i, tag, r as int));
                        assert(!spec_descendant(pre, i, r as int));
                    }
                }
                lemma_kill_subtree_preserves_wf(mid, world@, r as int);
            }
        } else {
            proof {
                assert forall|i: int|
                    0 <= i < len implies world@[i] == (if spec_doomed_upto(
                    pre,
                    i,
                    tag,
                    r + 1,
                ) {
                    spec_killed(pre[i])
                } else {
                    pre[i]
                }) by {
                    if spec_doomed_upto(pre, i, tag, r + 1) {
                        let k = choose|k: int|
                            0 <= k < r + 1 && (#[trigger] pre[k]).tags.contains(tag)
                                && spec_descendant(pre, i, k);
                        assert(k < r);
                        assert(spec_doomed_upto(pre, i, tag, r as int));
                    } else {
                        assert(!spec_doomed_upto(pre, i, tag, r as int));
                    }
                }
            }
        }
        r += 1;
    }
    proof {
        assert forall|i: int|
            0 <= i < len implies world@[i] == (if spec_doomed(pre, i, tag) {
            spec_killed(pre[i])
        } else {
            pre[i]
        }) by {
            lemma_doomed_iff_upto_len(pre, i, tag);
        }
    }
}

} // verus!
