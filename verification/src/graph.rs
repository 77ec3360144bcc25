//! The dependency graph of one project and its rendering to a scalable
//! vector diagram. Building the node set and edge list, resolving
//! dependency names, synthesizing placeholder nodes for unresolved names,
//! and assigning shape and colors from the item's kind and state are this
//! module's own, fully specified logic; the layered layout and the
//! serialization are delegated to the layout crate behind trusted wrappers.

use vstd::prelude::*;
use vstd::string::StringExecFns;

use layout::adt::dag::NodeHandle;
use layout::backends::svg::SVGWriter;
use layout::std_shapes::shapes::Arrow;
use layout::std_shapes::shapes::Element;
use layout::std_shapes::shapes::LineEndKind;
use layout::std_shapes::shapes::ShapeKind;
use layout::topo::layout::VisualGraph;

use crate::item::{views_of_items, Item, ItemState, ItemType, ItemV};
use crate::Error;

verus! {

/// Border color of nodes in states before their statement is ready.
pub const COLOR_BLACK: u32 = 0x000000FF;

/// Border color of nodes whose statement is ready to be formalized.
pub const COLOR_BLUE: u32 = 0x0000FFFF;

/// Border color of nodes whose statement is formalized.
pub const COLOR_GREEN: u32 = 0x008000FF;

/// Fill of nodes not yet ready for proof.
pub const COLOR_WHITE: u32 = 0xFFFFFFFF;

/// Fill of nodes ready for proof: a light blue.
pub const FILL_READY_FOR_PROOF: u32 = 0xA3D6FFFF;

/// Fill of fully formalized nodes, and of synthetic nodes: a light green.
pub const FILL_FORMALIZED: u32 = 0x9CEC8BFF;

/// One node of a project's dependency graph: an item node, or a synthetic
/// node standing for a dependency name that no item carries.
pub struct GraphNode {
    pub label: String,
    pub url: String,
    pub boxed: bool,
    pub line_color: u32,
    pub fill_color: u32,
    pub synthetic: bool,
}

/// The abstract value of a `GraphNode`.
#[verifier::ext_equal]
pub ghost struct NodeV {
    pub label: Seq<char>,
    pub url: Seq<char>,
    pub boxed: bool,
    pub line_color: u32,
    pub fill_color: u32,
    pub synthetic: bool,
}

impl View for GraphNode {
    type V = NodeV;

    open spec fn view(&self) -> NodeV {
        NodeV {
            label: self.label@,
            url: self.url@,
            boxed: self.boxed,
            line_color: self.line_color,
            fill_color: self.fill_color,
            synthetic: self.synthetic,
        }
    }
}

/// A project's dependency graph: nodes in insertion order, and directed
/// edges item-to-dependency as index pairs into the node list.
pub struct DepGraph {
    pub nodes: Vec<GraphNode>,
    pub edges: Vec<(usize, usize)>,
}

/// The abstract value of a `DepGraph`.
#[verifier::ext_equal]
pub ghost struct GraphV {
    pub nodes: Seq<NodeV>,
    pub edges: Seq<(int, int)>,
}

impl View for DepGraph {
    type V = GraphV;

    open spec fn view(&self) -> GraphV {
        GraphV {
            nodes: self.nodes@.map(|i: int, n: GraphNode| n@),
            edges: self.edges@.map(|i: int, e: (usize, usize)| (e.0 as int, e.1 as int)),
        }
    }
}

/// Border color from the lifecycle state: blue when ready for statement,
/// green when the statement is formalized, black otherwise.
pub open spec fn spec_line_color(s: ItemState) -> u32 {
    match s {
        ItemState::ReadyForStmt => COLOR_BLUE,
        ItemState::StmtFormalized => COLOR_GREEN,
        _ => COLOR_BLACK,
    }
}

/// Fill color from the lifecycle state: white before proof-readiness,
/// light blue when ready for proof, light green when formalized.
pub open spec fn spec_fill_color(s: ItemState) -> u32 {
    match s {
        ItemState::Draft => COLOR_WHITE,
        ItemState::ReadyForStmt => COLOR_WHITE,
        ItemState::StmtFormalized => COLOR_WHITE,
        ItemState::ReadyForProof => FILL_READY_FOR_PROOF,
        ItemState::Formalized => FILL_FORMALIZED,
    }
}

/// Whether the node of an item kind is drawn as a rectangle.
pub open spec fn spec_boxed(k: ItemType) -> bool {
    match k {
        ItemType::Theorem => true,
        ItemType::Definition => false,
    }
}

/// The node of an item: labeled and linked by the item's name, styled as a
/// pure function of its kind and state.
pub open spec fn spec_item_node(it: ItemV) -> NodeV {
    NodeV {
        label: it.name,
        url: it.name + ".html"@,
        boxed: spec_boxed(it.info.kind),
        line_color: spec_line_color(it.info.state),
        fill_color: spec_fill_color(it.info.state),
        synthetic: false,
    }
}

/// The synthetic node of an unresolved dependency name: a rectangle with
/// black border and light-green fill, linked like an item.
pub open spec fn spec_synthetic_node(name: Seq<char>) -> NodeV {
    NodeV {
        label: name,
        url: name + ".html"@,
        boxed: true,
        line_color: COLOR_BLACK,
        fill_color: FILL_FORMALIZED,
        synthetic: true,
    }
}

/// The index of the first node at or after `i` whose label is `name`, or
/// a negative value when there is none.
pub open spec fn spec_find_from(nodes: Seq<NodeV>, name: Seq<char>, i: int) -> int
    decreases nodes.len() - i,
{
    if i < 0 || i >= nodes.len() {
        -1
    } else if nodes[i].label == name {
        i
    } else {
        spec_find_from(nodes, name, i + 1)
    }
}

/// The item nodes of a project, one per item, in scan order.
pub open spec fn spec_item_nodes(items: Seq<ItemV>) -> Seq<NodeV> {
    items.map(|i: int, it: ItemV| spec_item_node(it))
}

/// One dependency of the item at node `src`: an edge to the first node
/// carrying the name, or a fresh synthetic node and an edge to it.
pub open spec fn spec_add_dep(g: GraphV, src: int, dep: Seq<char>) -> GraphV {
    let j = spec_find_from(g.nodes, dep, 0);
    if j >= 0 {
        GraphV { nodes: g.nodes, edges: g.edges.push((src, j)) }
    } else {
        GraphV {
            nodes: g.nodes.push(spec_synthetic_node(dep)),
            edges: g.edges.push((src, g.nodes.len() as int)),
        }
    }
}

/// The dependencies of one item from position `k` on, in declaration
/// order.
pub open spec fn spec_add_deps(g: GraphV, src: int, deps: Seq<Seq<char>>, k: int) -> GraphV
    decreases deps.len() - k,
{
    if k < 0 || k >= deps.len() {
        g
    } else {
        spec_add_deps(spec_add_dep(g, src, deps[k]), src, deps, k + 1)
    }
}

/// The edges of the items from position `i` on, each item's dependencies
/// in declaration order, the items in scan order.
pub open spec fn spec_build_edges(g: GraphV, items: Seq<ItemV>, i: int) -> GraphV
    decreases items.len() - i,
{
    if i < 0 || i >= items.len() {
        g
    } else {
        let src = spec_find_from(g.nodes, items[i].name, 0);
        spec_build_edges(spec_add_deps(g, src, items[i].info.dependencies, 0), items, i + 1)
    }
}

/// The dependency graph of an item sequence: one node per item first, then
/// the edges, synthesizing placeholder nodes as unresolved names appear.
pub open spec fn spec_graph_of(items: Seq<ItemV>) -> GraphV {
    spec_build_edges(GraphV { nodes: spec_item_nodes(items), edges: Seq::empty() }, items, 0)
}

/// All edge endpoints of `g` index into its node list.
pub open spec fn spec_edges_in_range(g: GraphV) -> bool {
    forall|k: int|
        0 <= k < g.edges.len() ==> 0 <= #[trigger] g.edges[k].0 < g.nodes.len() && 0 <= g.edges[
            k
        ].1 < g.nodes.len()
}

/// The node of one item, styled from its kind and state.
pub fn item_node(item: &Item) -> (n: GraphNode)
    ensures
        n@ == spec_item_node(item@),
{
    let n = GraphNode {
        label: item.name.clone(),
        url: item.name.clone().concat(".html"),
        boxed: match item.info.kind {
            ItemType::Theorem => true,
            ItemType::Definition => false,
        },
        line_color: match item.info.state {
            ItemState::ReadyForStmt => COLOR_BLUE,
            ItemState::StmtFormalized => COLOR_GREEN,
            _ => COLOR_BLACK,
        },
        fill_color: match item.info.state {
            ItemState::Draft => COLOR_WHITE,
            ItemState::ReadyForStmt => COLOR_WHITE,
            ItemState::StmtFormalized => COLOR_WHITE,
            ItemState::ReadyForProof => FILL_READY_FOR_PROOF,
            ItemState::Formalized => FILL_FORMALIZED,
        },
        synthetic: false,
    };
    proof {
        assert(n@ =~= spec_item_node(item@));
    }
    n
}

/// The synthetic node of an unresolved dependency name.
pub fn synthetic_node(name: &String) -> (n: GraphNode)
    ensures
        n@ == spec_synthetic_node(name@),
{
    let n = GraphNode {
        label: name.clone(),
        url: name.clone().concat(".html"),
        boxed: true,
        line_color: COLOR_BLACK,
        fill_color: FILL_FORMALIZED,
        synthetic: true,
    };
    proof {
        assert(n@ =~= spec_synthetic_node(name@));
    }
    n
}

/// The first node carrying `name`, scanning in insertion order.
fn find_node(nodes: &Vec<GraphNode>, name: &String) -> (r: Option<usize>)
    ensures
        match r {
            Some(k) => 0 <= k < nodes@.len() && spec_find_from(
                nodes@.map(|i: int, n: GraphNode| n@),
                name@,
                0,
            ) == k as int,
            None => spec_find_from(nodes@.map(|i: int, n: GraphNode| n@), name@, 0) < 0,
        },
{
    let ghost views = nodes@.map(|i: int, n: GraphNode| n@);
    let mut k: usize = 0;
    while k < nodes.len()
        invariant
            0 <= k <= nodes@.len(),
            views == nodes@.map(|i: int, n: GraphNode| n@),
            spec_find_from(views, name@, 0) == spec_find_from(views, name@, k as int),
        decreases nodes@.len() - k,
    {
        if nodes[k].label == *name {
            return Some(k);
        }
        k += 1;
    }
    None
}

impl DepGraph {
    /// Build the dependency graph of one project's items: an item node per
    /// item in scan order, then, per item and per dependency name in
    /// declaration order, an edge to the node carrying that name — a
    /// synthetic node being created the first time an unresolved name is
    /// met. Fails only on the internal invariant that an item's own node
    /// is missing, which cannot occur.
    pub fn build(items: &Vec<Item>) -> (r: Result<DepGraph, Error>)
        ensures
            r matches Ok(g) && g@ == spec_graph_of(views_of_items(items@)),
            r matches Ok(g) && spec_edges_in_range(g@),
    {
        let ghost items_v = views_of_items(items@);
        let mut g = DepGraph { nodes: Vec::new(), edges: Vec::new() };
        let mut i: usize = 0;
        while i < items.len()
            invariant
                0 <= i <= items@.len(),
                items_v == views_of_items(items@),
                g@.nodes =~= spec_item_nodes(items_v.take(i as int)),
                g@.edges =~= Seq::<(int, int)>::empty(),
            decreases items@.len() - i,
        {
            let n = item_node(&items[i]);
            let ghost prev = g@.nodes;
            g.nodes.push(n);
            proof {
                assert(prev.len() == i);
                assert(g@.nodes =~= prev.push(n@));
                assert(g@.nodes =~= spec_item_nodes(items_v.take(i as int + 1)));
            }
            i += 1;
        }
        proof {
            assert(items_v.take(items@.len() as int) =~= items_v);
            assert(g@ =~= GraphV { nodes: spec_item_nodes(items_v), edges: Seq::empty() });
        }
        let ghost target = spec_graph_of(items_v);
        let mut i: usize = 0;
        while i < items.len()
            invariant
                0 <= i <= items@.len(),
                items_v == views_of_items(items@),
                items@.len() <= g@.nodes.len(),
                g@.nodes.take(items@.len() as int) =~= spec_item_nodes(items_v),
                spec_build_edges(g@, items_v, i as int) == target,
                spec_edges_in_range(g@),
            decreases items@.len() - i,
        {
            let item = &items[i];
            proof {
                assert(g@.nodes[i as int] == spec_item_nodes(items_v)[i as int]);
                lemma_find_from_some(g@.nodes, item@.name, 0, i as int);
            }
            let src: usize = match find_node(&g.nodes, &item.name) {
                Some(s) => s,
                None => {
                    return Err(
                        Error::Custom(
                            "Could not find node for item ".to_owned().concat(item.name.as_str()),
                        ),
                    );
                },
            };
            let ghost g_entry = g@;
            let ghost deps_v = item@.info.dependencies;
            let mut k: usize = 0;
            while k < item.info.dependencies.len()
                invariant
                    0 <= k <= deps_v.len(),
                    deps_v == item@.info.dependencies,
                    item@ == items_v[i as int],
                    0 <= i < items_v.len(),
                    items@.len() <= g@.nodes.len(),
                    g@.nodes.take(items@.len() as int) =~= spec_item_nodes(items_v),
                    src < g@.nodes.len(),
                    spec_edges_in_range(g@),
                    spec_add_deps(g@, src as int, deps_v, k as int) == spec_add_deps(
                        g_entry,
                        src as int,
                        deps_v,
                        0,
                    ),
                decreases deps_v.len() - k,
            {
                let dep: &String = &item.info.dependencies[k];
                let ghost g_before = g@;
                match find_node(&g.nodes, dep) {
                    Some(j) => {
                        g.edges.push((src, j));
                        proof {
                            assert(g@.edges =~= g_before.edges.push((src as int, j as int)));
                            assert(g@ =~= spec_add_dep(g_before, src as int, deps_v[k as int]));
                        }
                    },
                    None => {
                        let fresh = synthetic_node(dep);
                        let j = g.nodes.len();
                        g.nodes.push(fresh);
                        g.edges.push((src, j));
                        proof {
                            assert(g@.nodes =~= g_before.nodes.push(
                                spec_synthetic_node(dep@),
                            ));
                            assert(g@.edges =~= g_before.edges.push((src as int, j as int)));
                            assert(g@ =~= spec_add_dep(g_before, src as int, deps_v[k as int]));
                            assert(g@.nodes.take(items@.len() as int) =~= g_before.nodes.take(
                                items@.len() as int,
                            ));
                        }
                    },
                }
                k += 1;
            }
            proof {
                assert(spec_add_deps(g@, src as int, deps_v, deps_v.len() as int) == g@);
                assert(spec_build_edges(g_entry, items_v, i as int) == spec_build_edges(
                    g@,
                    items_v,
                    i + 1,
                ));
            }
            i += 1;
        }
        proof {
            assert(spec_build_edges(g@, items_v, items_v.len() as int) == g@);
        }
        Ok(g)
    }
}

/// What the layout crate is shown of one node: label, shape, colors and
/// link target. The remaining style inputs (font size, padding, line
/// width, corner rounding, and the edge arrow style) are fixed inside the
/// trusted wrappers, so a graph's rendering is a function of these records
/// and the edge list alone.
#[verifier::ext_equal]
pub ghost struct VgNode {
    pub label: Seq<char>,
    pub boxed: bool,
    pub line_color: u32,
    pub fill_color: u32,
    pub url: Seq<char>,
}

/// What the layout crate is shown of a node of ours.
pub open spec fn spec_vg_rep(n: NodeV) -> VgNode {
    VgNode {
        label: n.label,
        boxed: n.boxed,
        line_color: n.line_color,
        fill_color: n.fill_color,
        url: n.url,
    }
}

/// What the layout crate is shown of a node list of ours.
pub open spec fn spec_vg_reps(nodes: Seq<NodeV>) -> Seq<VgNode> {
    nodes.map(|i: int, n: NodeV| spec_vg_rep(n))
}

#[verifier::external_type_specification]
#[verifier::external_body]
pub struct ExVisualGraph(VisualGraph);

#[verifier::external_type_specification]
#[verifier::external_body]
pub struct ExNodeHandle(NodeHandle);

/// The nodes a visual graph holds, in insertion order.
pub uninterp spec fn vg_nodes(g: VisualGraph) -> Seq<VgNode>;

/// The edges a visual graph holds, in insertion order, as node index
/// pairs.
pub uninterp spec fn vg_edges(g: VisualGraph) -> Seq<(int, int)>;

/// The node index a handle stands for.
pub uninterp spec fn handle_index(h: NodeHandle) -> int;

/// The serialized vector diagram of a graph: with the fixed style policy
/// of the wrappers below, it is a function of the nodes and edges alone.
pub uninterp spec fn svg_of(nodes: Seq<VgNode>, edges: Seq<(int, int)>) -> Seq<char>;

/// Relies on layout's VisualGraph::new: a fresh graph, laid out top to
/// bottom, holding no nodes and no edges.
#[verifier::external_body]
fn vg_new() -> (g: VisualGraph)
    ensures
        vg_nodes(g) == Seq::<VgNode>::empty(),
        vg_edges(g) == Seq::<(int, int)>::empty(),
{
    VisualGraph::new(layout::core::base::Orientation::TopToBottom)
}

/// Relies on layout's Element::create_with_properties and
/// VisualGraph::add_node: appends one node with the given label, shape,
/// colors and link target, sized from the label text at font size 15 and
/// padded by 30, with line width 1 and no corner rounding; the returned
/// handle stands for the new node's index.
#[verifier::external_body]
fn vg_add_node(
    g: &mut VisualGraph,
    label: &String,
    boxed: bool,
    line_color: u32,
    fill_color: u32,
    url: &String,
) -> (h: NodeHandle)
    ensures
        vg_nodes(*final(g)) == vg_nodes(*old(g)).push(
            VgNode { label: label@, boxed, line_color, fill_color, url: url@ },
        ),
        vg_edges(*final(g)) == vg_edges(*old(g)),
        handle_index(h) == vg_nodes(*old(g)).len() as int,
{
    let size = layout::core::geometry::pad_shape_scalar(layout::core::geometry::get_size_for_str(label, 15), 30u32.into());
    let look = layout::core::style::StyleAttr::new(layout::core::color::Color::new(line_color), 1, Some(layout::core::color::Color::new(fill_color)), 0, 15);
    let shape = if boxed { ShapeKind::new_box(label) } else { ShapeKind::new_circle(label) };
    g.add_node(Element::create_with_properties(shape, look, layout::core::base::Orientation::LeftToRight, size, url.clone()))
}

/// Relies on layout's Arrow::new and VisualGraph::add_edge: appends one
/// solid edge between the handles' nodes, with an arrow head at the target
/// end and none at the source end, in the fixed black-on-white edge style.
/// add_edge asserts that both handles index existing nodes, so handles of
/// another graph are excluded here.
#[verifier::external_body]
fn vg_add_edge(
    g: &mut VisualGraph,
    from: &NodeHandle,
    to: &NodeHandle,
)
    requires
        0 <= handle_index(*from) < vg_nodes(*old(g)).len(),
        0 <= handle_index(*to) < vg_nodes(*old(g)).len(),
    ensures
        vg_nodes(*final(g)) == vg_nodes(*old(g)),
        vg_edges(*final(g)) == vg_edges(*old(g)).push(
            (handle_index(*from), handle_index(*to)),
        ),
{
    let look = layout::core::style::StyleAttr::new(layout::core::color::Color::fast("black"), 1, Some(layout::core::color::Color::fast("white")), 0, 15);
    let arrow = Arrow::new(LineEndKind::None, LineEndKind::Arrow, layout::core::style::LineStyleKind::Normal, "", &look, &None, &None);
    g.add_edge(arrow, *from, *to);
}

/// Relies on layout's VisualGraph::do_it with an SVGWriter backend and on
/// SVGWriter::finalize: lays the graph out and serializes it. All nodes
/// and edges are added with one fixed style policy and a single font
/// class, and the crate's layout and serialization walk only its own
/// insertion-ordered vectors, so the text is a function of the nodes and
/// edges alone. The layout pass asserts that the graph is non-empty, so
/// the empty graph is excluded here; callers draw nothing for it instead.
#[verifier::external_body]
fn vg_to_svg(g: &mut VisualGraph) -> (r: String)
    requires
        vg_nodes(*old(g)).len() > 0,
    ensures
        r@ == svg_of(vg_nodes(*old(g)), vg_edges(*old(g))),
{
    let mut svg = SVGWriter::new();
    g.do_it(false, false, false, &mut svg);
    svg.finalize()
}

impl DepGraph {
    /// Serialize this graph to its vector diagram, handing the layout
    /// crate every node in insertion order and then every edge in
    /// insertion order. The layout pass cannot draw an empty graph, so a
    /// graph without nodes is left to the caller.
    pub fn to_svg(&self) -> (r: String)
        requires
            spec_edges_in_range(self@),
            self@.nodes.len() > 0,
        ensures
            r@ == svg_of(spec_vg_reps(self@.nodes), self@.edges),
    {
        let mut vg = vg_new();
        let mut handles: Vec<NodeHandle> = Vec::new();
        let mut i: usize = 0;
        while i < self.nodes.len()
            invariant
                0 <= i <= self.nodes@.len(),
                spec_edges_in_range(self@),
                vg_nodes(vg) =~= spec_vg_reps(self@.nodes.take(i as int)),
                vg_edges(vg) == Seq::<(int, int)>::empty(),
                handles@.len() == i,
                forall|k: int| 0 <= k < i ==> handle_index(#[trigger] handles@[k]) == k,
            decreases self.nodes@.len() - i,
        {
            let ghost prev = vg_nodes(vg);
            let n = &self.nodes[i];
            let h = vg_add_node(&mut vg, &n.label, n.boxed, n.line_color, n.fill_color, &n.url);
            handles.push(h);
            proof {
                assert(prev.len() == i);
                assert(vg_nodes(vg) =~= spec_vg_reps(self@.nodes.take(i as int + 1)));
            }
            i += 1;
        }
        proof {
            assert(self@.nodes.take(self.nodes@.len() as int) =~= self@.nodes);
            assert(vg_nodes(vg) =~= spec_vg_reps(self@.nodes));
        }
        let ghost all_nodes = vg_nodes(vg);
        let mut j: usize = 0;
        while j < self.edges.len()
            invariant
                0 <= j <= self.edges@.len(),
                spec_edges_in_range(self@),
                handles@.len() == self.nodes@.len(),
                forall|k: int|
                    0 <= k < handles@.len() ==> handle_index(#[trigger] handles@[k]) == k,
                vg_nodes(vg) == all_nodes,
                all_nodes =~= spec_vg_reps(self@.nodes),
                vg_edges(vg) =~= self@.edges.take(j as int),
            decreases self.edges@.len() - j,
        {
            let ghost prev = vg_edges(vg);
            let e = self.edges[j];
            proof {
                assert(self@.edges[j as int] == (e.0 as int, e.1 as int));
                assert(0 <= self@.edges[j as int].0 < self@.nodes.len());
            }
            vg_add_edge(&mut vg, &handles[e.0], &handles[e.1]);
            proof {
                assert(prev.len() == j);
                assert(vg_edges(vg) =~= self@.edges.take(j as int + 1));
            }
            j += 1;
        }
        proof {
            assert(self@.edges.take(self.edges@.len() as int) =~= self@.edges);
        }
        vg_to_svg(&mut vg)
    }
}

/// If some node at or after `i` carries `name`, the scan from `i` stops at
/// the first one, no later than `j`.
pub proof fn lemma_find_from_some(nodes: Seq<NodeV>, name: Seq<char>, i: int, j: int)
    requires
        0 <= i <= j < nodes.len(),
        nodes[j].label == name,
    ensures
        i <= spec_find_from(nodes, name, i) <= j,
        nodes[spec_find_from(nodes, name, i)].label == name,
    decreases j - i,
{
    if nodes[i].label == name {
    } else {
        lemma_find_from_some(nodes, name, i + 1, j);
    }
}

/// A scan that finds a node at or after `i` finds one in range, carrying
/// the name; one that finds none leaves no node from `i` on carrying it.
pub proof fn lemma_find_from_spec(nodes: Seq<NodeV>, name: Seq<char>, i: int)
    requires
        0 <= i,
    ensures
        spec_find_from(nodes, name, i) >= 0 ==> i <= spec_find_from(nodes, name, i)
            < nodes.len() && nodes[spec_find_from(nodes, name, i)].label == name,
        spec_find_from(nodes, name, i) < 0 ==> forall|t: int|
            i <= t < nodes.len() ==> (#[trigger] nodes[t]).label != name,
    decreases nodes.len() - i,
{
    if i < nodes.len() && nodes[i].label != name {
        lemma_find_from_spec(nodes, name, i + 1);
    }
}

/// No item carries the same name as an earlier item.
pub open spec fn spec_unique_names(items: Seq<ItemV>) -> bool {
    forall|a: int, b: int|
        0 <= a < b < items.len() ==> (#[trigger] items[a]).name != (#[trigger] items[b]).name
}

/// What holds of the graph at every step of its construction: the item
/// nodes stay a prefix in item order, every later node is synthetic and
/// carries no item's name, every edge endpoint is in range, and every
/// edge targeting a node that carries an item's name targets that item's
/// own node.
pub open spec fn spec_resolution_inv(items: Seq<ItemV>, g: GraphV) -> bool {
    &&& items.len() <= g.nodes.len()
    &&& g.nodes.take(items.len() as int) == spec_item_nodes(items)
    &&& (forall|t: int|
        items.len() <= t < g.nodes.len() ==> (#[trigger] g.nodes[t]).synthetic)
    &&& (forall|t: int, j: int|
        #![auto]
        items.len() <= t < g.nodes.len() && 0 <= j < items.len() ==> g.nodes[t].label
            != items[j].name)
    &&& spec_edges_in_range(g)
    &&& (forall|k: int, j: int|
        #![auto]
        0 <= k < g.edges.len() && 0 <= j < items.len() && g.nodes[g.edges[k].1].label
            == items[j].name ==> g.edges[k].1 == j)
}

/// Under unique names and the construction invariant, looking an item's
/// name up yields that item's own node.
pub proof fn lemma_lookup_is_item(items: Seq<ItemV>, g: GraphV, j: int)
    requires
        spec_unique_names(items),
        spec_resolution_inv(items, g),
        0 <= j < items.len(),
    ensures
        spec_find_from(g.nodes, items[j].name, 0) == j,
{
    assert(g.nodes[j] == g.nodes.take(items.len() as int)[j]);
    assert(g.nodes[j].label == items[j].name);
    lemma_find_from_some(g.nodes, items[j].name, 0, j);
    let r = spec_find_from(g.nodes, items[j].name, 0);
    if r < j {
        assert(g.nodes[r] == g.nodes.take(items.len() as int)[r]);
        assert(g.nodes[r].label == items[r].name);
    }
}

/// One dependency step preserves the construction invariant.
proof fn lemma_add_dep_inv(items: Seq<ItemV>, g: GraphV, src: int, dep: Seq<char>)
    requires
        spec_unique_names(items),
        spec_resolution_inv(items, g),
        0 <= src < g.nodes.len(),
    ensures
        spec_resolution_inv(items, spec_add_dep(g, src, dep)),
        spec_add_dep(g, src, dep).nodes.len() >= g.nodes.len(),
{
    let r = spec_find_from(g.nodes, dep, 0);
    lemma_find_from_spec(g.nodes, dep, 0);
    let g2 = spec_add_dep(g, src, dep);
    if r >= 0 {
        assert(g2.nodes == g.nodes);
        assert(g2.edges == g.edges.push((src, r)));
        assert(g.nodes[r].label == dep);
        assert forall|k: int, j: int|
            #![auto]
            0 <= k < g2.edges.len() && 0 <= j < items.len() && g2.nodes[g2.edges[k].1].label
                == items[j].name implies g2.edges[k].1 == j by {
            if k < g.edges.len() {
                assert(0 <= g.edges[k].0 < g.nodes.len() && 0 <= g.edges[k].1 < g.nodes.len());
                assert(g2.edges[k] == g.edges[k]);
            } else {
                assert(g2.edges[k] == (src, r));
                assert(dep == items[j].name);
                lemma_lookup_is_item(items, g, j);
            }
        }
        assert(spec_edges_in_range(g2));
    } else {
        let t = g.nodes.len() as int;
        assert(g2.nodes == g.nodes.push(spec_synthetic_node(dep)));
        assert(g2.edges == g.edges.push((src, t)));
        assert(g2.nodes.take(items.len() as int) =~= g.nodes.take(items.len() as int));
        assert forall|j: int| 0 <= j < items.len() implies dep != (#[trigger] items[j]).name by {
            assert(g.nodes[j] == g.nodes.take(items.len() as int)[j]);
            assert(g.nodes[j].label == items[j].name);
        }
        assert forall|k: int, j: int|
            #![auto]
            0 <= k < g2.edges.len() && 0 <= j < items.len() && g2.nodes[g2.edges[k].1].label
                == items[j].name implies g2.edges[k].1 == j by {
            if k < g.edges.len() {
                assert(0 <= g.edges[k].0 < g.nodes.len() && 0 <= g.edges[k].1 < g.nodes.len());
                assert(g2.edges[k] == g.edges[k]);
                assert(g2.nodes[g.edges[k].1] == g.nodes[g.edges[k].1]);
            } else {
                assert(g2.edges[k] == (src, t));
                assert(g2.nodes[t].label == dep);
            }
        }
        assert(spec_edges_in_range(g2));
    }
}

/// Every dependency of one item preserves the construction invariant.
proof fn lemma_add_deps_inv(items: Seq<ItemV>, g: GraphV, src: int, deps: Seq<Seq<char>>, k: int)
    requires
        spec_unique_names(items),
        spec_resolution_inv(items, g),
        0 <= src < g.nodes.len(),
        0 <= k,
    ensures
        spec_resolution_inv(items, spec_add_deps(g, src, deps, k)),
        spec_add_deps(g, src, deps, k).nodes.len() >= g.nodes.len(),
    decreases deps.len() - k,
{
    if k < deps.len() {
        lemma_add_dep_inv(items, g, src, deps[k]);
        lemma_add_deps_inv(items, spec_add_dep(g, src, deps[k]), src, deps, k + 1);
    }
}

/// The whole edge-building pass preserves the construction invariant.
proof fn lemma_build_edges_inv(items: Seq<ItemV>, g: GraphV, i: int)
    requires
        spec_unique_names(items),
        spec_resolution_inv(items, g),
        0 <= i,
    ensures
        spec_resolution_inv(items, spec_build_edges(g, items, i)),
    decreases items.len() - i,
{
    if i < items.len() {
        let src = spec_find_from(g.nodes, items[i].name, 0);
        lemma_lookup_is_item(items, g, i);
        lemma_add_deps_inv(items, g, src, items[i].info.dependencies, 0);
        lemma_build_edges_inv(items, spec_add_deps(g, src, items[i].info.dependencies, 0), i + 1);
    }
}

/// Law: a dependency name that is an existing item's name resolves to that
/// item's own node — never to a synthetic node — wherever the dependency
/// is declared: in the finished graph, the item nodes stand first in item
/// order, every later node is synthetic and carries no item's name, and
/// every edge whose target carries an item's name targets that item's
/// node. Item names are assumed unique, the model's invariant.
pub proof fn lemma_dependency_resolution(items: Seq<ItemV>, j: int)
    requires
        spec_unique_names(items),
        0 <= j < items.len(),
    ensures
        spec_graph_of(items).nodes[j] == spec_item_node(items[j]),
        spec_find_from(spec_graph_of(items).nodes, items[j].name, 0) == j,
        forall|k: int|
            #![auto]
            0 <= k < spec_graph_of(items).edges.len() && spec_graph_of(items).nodes[spec_graph_of(
                items,
            ).edges[k].1].label == items[j].name ==> spec_graph_of(items).edges[k].1 == j,
{
    let g0 = GraphV { nodes: spec_item_nodes(items), edges: Seq::empty() };
    assert(g0.nodes.take(items.len() as int) =~= g0.nodes);
    assert(spec_resolution_inv(items, g0));
    lemma_build_edges_inv(items, g0, 0);
    let g = spec_graph_of(items);
    lemma_lookup_is_item(items, g, j);
    assert(g.nodes[j] == g.nodes.take(items.len() as int)[j]);
}

/// Law: the graph of a project is a pure function of its item sequence —
/// the same items, in the same scan order, always yield the same node
/// set, edge list, and node insertion order.
pub proof fn lemma_graph_deterministic(a: Seq<ItemV>, b: Seq<ItemV>)
    requires
        a == b,
    ensures
        spec_graph_of(a) == spec_graph_of(b),
{
}

/// Law: the finished graph keeps the item nodes as its prefix, one per
/// item in scan order, and every node past them is synthetic. An item
/// absent from the model — a hidden one — therefore never appears as an
/// item node; a name can only reappear as a synthetic placeholder.
pub proof fn lemma_item_nodes_prefix(items: Seq<ItemV>)
    ensures
        spec_graph_of(items).nodes.len() >= items.len(),
        spec_graph_of(items).nodes.take(items.len() as int) == spec_item_nodes(items),
        forall|t: int|
            items.len() <= t < spec_graph_of(items).nodes.len() ==> (#[trigger] spec_graph_of(
                items,
            ).nodes[t]).synthetic,
{
    let g0 = GraphV { nodes: spec_item_nodes(items), edges: Seq::empty() };
    assert(g0.nodes.take(items.len() as int) =~= g0.nodes);
    lemma_build_edges_prefix(items, g0, 0);
}

/// The edge-building pass only appends synthetic nodes, keeping the item
/// prefix, with no uniqueness assumption.
proof fn lemma_build_edges_prefix(items: Seq<ItemV>, g: GraphV, i: int)
    requires
        items.len() <= g.nodes.len(),
        g.nodes.take(items.len() as int) == spec_item_nodes(items),
        forall|t: int| items.len() <= t < g.nodes.len() ==> (#[trigger] g.nodes[t]).synthetic,
        0 <= i,
    ensures
        spec_build_edges(g, items, i).nodes.len() >= g.nodes.len(),
        spec_build_edges(g, items, i).nodes.take(items.len() as int) == spec_item_nodes(items),
        forall|t: int|
            items.len() <= t < spec_build_edges(g, items, i).nodes.len() ==> (
            #[trigger] spec_build_edges(g, items, i).nodes[t]).synthetic,
    decreases items.len() - i,
{
    if i < items.len() {
        let src = spec_find_from(g.nodes, items[i].name, 0);
        lemma_add_deps_prefix(items, g, src, items[i].info.dependencies, 0);
        lemma_build_edges_prefix(
            items,
            spec_add_deps(g, src, items[i].info.dependencies, 0),
            i + 1,
        );
    }
}

/// Adding one item's dependencies only appends synthetic nodes.
proof fn lemma_add_deps_prefix(items: Seq<ItemV>, g: GraphV, src: int, deps: Seq<Seq<char>>, k: int)
    requires
        items.len() <= g.nodes.len(),
        g.nodes.take(items.len() as int) == spec_item_nodes(items),
        forall|t: int| items.len() <= t < g.nodes.len() ==> (#[trigger] g.nodes[t]).synthetic,
        0 <= k,
    ensures
        spec_add_deps(g, src, deps, k).nodes.len() >= g.nodes.len(),
        spec_add_deps(g, src, deps, k).nodes.take(items.len() as int) == spec_item_nodes(items),
        forall|t: int|
            items.len() <= t < spec_add_deps(g, src, deps, k).nodes.len() ==> (
            #[trigger] spec_add_deps(g, src, deps, k).nodes[t]).synthetic,
    decreases deps.len() - k,
{
    if k < deps.len() {
        let g2 = spec_add_dep(g, src, deps[k]);
        if spec_find_from(g.nodes, deps[k], 0) < 0 {
            assert(g2.nodes.take(items.len() as int) =~= g.nodes.take(items.len() as int));
        }
        lemma_add_deps_prefix(items, g2, src, deps, k + 1);
    }
}

} // verus!
