//! Trusted interface to the petgraph directed graph that stores the span
//! nodes and call-count edges.
//!
//! The graph value is opaque to the verifier; its contents are named by the
//! two uninterpreted functions [`gnodes`] and [`gedges`], and every method
//! the library calls is wrapped in a function whose contract states, over
//! those names, what petgraph's source shows.

use vstd::prelude::*;

use crate::graph::{EdgeRec, NodeRec, SpanTiming};

verus! {

#[verifier::external_type_specification]
#[verifier::external_body]
#[verifier::reject_recursive_types(N)]
#[verifier::reject_recursive_types(E)]
#[verifier::reject_recursive_types(Ty)]
#[verifier::reject_recursive_types(Ix)]
pub struct ExGraph<N, E, Ty, Ix>(petgraph::graph::Graph<N, E, Ty, Ix>);

#[verifier::external_type_specification]
#[verifier::external_body]
pub struct ExDirected(petgraph::Directed);

/// The node records held by a graph, in storage (= insertion) order.
pub uninterp spec fn gnodes(g: petgraph::graph::DiGraph<SpanTiming, usize>) -> Seq<NodeRec>;

/// The edge records held by a graph, in storage (= insertion) order; each
/// endpoint is a node position in [`gnodes`].
pub uninterp spec fn gedges(g: petgraph::graph::DiGraph<SpanTiming, usize>) -> Seq<EdgeRec>;

/// Relies on `petgraph::graph::Graph::new`: the new graph has no nodes and
/// no edges.
#[verifier::external_body]
pub(crate) fn graph_new() -> (g: petgraph::graph::DiGraph<SpanTiming, usize>)
    ensures
        gnodes(g) == Seq::<NodeRec>::empty(),
        gedges(g) == Seq::<EdgeRec>::empty(),
{
    petgraph::graph::Graph::new()
}

/// Relies on `petgraph::graph::Graph::add_node`: appends one node and
/// returns its index, which equals the previous node count.
#[verifier::external_body]
pub(crate) fn graph_add_node(g: &mut petgraph::graph::DiGraph<SpanTiming, usize>, w: SpanTiming) -> (i: usize)
    requires
        gnodes(*old(g)).len() < 0xFFFF_FFFF,
    ensures
        gnodes(*final(g)) == gnodes(*old(g)).push(w.rec()),
        gedges(*final(g)) == gedges(*old(g)),
        i == gnodes(*old(g)).len(),
{
    g.add_node(w).index()
}

/// Relies on `petgraph::graph::Graph::node_count`: the number of nodes.
#[verifier::external_body]
pub(crate) fn graph_node_count(g: &petgraph::graph::DiGraph<SpanTiming, usize>) -> (n: usize)
    ensures
        n == gnodes(*g).len(),
{
    g.node_count()
}

/// Relies on `petgraph::graph::Graph::node_weight`: returns the data of the
/// node at a valid index.
#[verifier::external_body]
pub(crate) fn graph_node(g: &petgraph::graph::DiGraph<SpanTiming, usize>, i: usize) -> (r: &SpanTiming)
    requires
        i < gnodes(*g).len(),
    ensures
        r.rec() == gnodes(*g)[i as int],
{
    g.node_weight(petgraph::graph::NodeIndex::new(i)).expect("node index out of bounds")
}

/// Relies on `petgraph::graph::Graph::node_weight_mut`: replaces the data of
/// the node at a valid index, leaving every other node and all edges alone.
#[verifier::external_body]
pub(crate) fn graph_set_node(
    g: &mut petgraph::graph::DiGraph<SpanTiming, usize>,
    i: usize,
    w: SpanTiming,
)
    requires
        i < gnodes(*old(g)).len(),
    ensures
        gnodes(*final(g)) == gnodes(*old(g)).update(i as int, w.rec()),
        gedges(*final(g)) == gedges(*old(g)),
{
    if let Some(data) = g.node_weight_mut(petgraph::graph::NodeIndex::new(i)) {
        *data = w;
    }
}

/// Relies on `petgraph::graph::Graph::raw_nodes`: the node data in storage
/// order.
#[verifier::external_body]
pub(crate) fn graph_nodes_vec(g: &petgraph::graph::DiGraph<SpanTiming, usize>) -> (r: Vec<SpanTiming>)
    ensures
        r@.len() == gnodes(*g).len(),
        forall|i: int| 0 <= i < r@.len() ==> r@[i].rec() == gnodes(*g)[i],
{
    g.raw_nodes().iter().map(|n| n.weight.clone()).collect()
}

/// Relies on `petgraph::graph::Graph::find_edge`: returns an edge from `a`
/// to `b` if one exists. Under the callers' bookkeeping at most one such
/// edge ever exists, so the result is the position of that edge.
#[verifier::external_body]
pub(crate) fn graph_find_edge(
    g: &petgraph::graph::DiGraph<SpanTiming, usize>,
    a: usize,
    b: usize,
) -> (r: Option<usize>)
    ensures
        match r {
            Some(k) => k < gedges(*g).len() && gedges(*g)[k as int].0 == a
                && gedges(*g)[k as int].1 == b,
            None => forall|k: int|
                0 <= k < gedges(*g).len() ==> !(gedges(*g)[k].0 == a && gedges(*g)[k].1 == b),
        },
{
    g.find_edge(petgraph::graph::NodeIndex::new(a), petgraph::graph::NodeIndex::new(b))
        .map(|e| e.index())
}

/// Relies on `petgraph::graph::Graph::edge_weight`: the weight of the edge
/// at a valid position.
#[verifier::external_body]
pub(crate) fn graph_edge_weight(g: &petgraph::graph::DiGraph<SpanTiming, usize>, k: usize) -> (w: usize)
    requires
        k < gedges(*g).len(),
    ensures
        w == gedges(*g)[k as int].2,
{
    *g.edge_weight(petgraph::graph::EdgeIndex::new(k)).expect("edge index out of bounds")
}

/// Relies on `petgraph::graph::Graph::edge_weight_mut`: replaces the weight
/// of the edge at a valid position, leaving its endpoints, every other edge
/// and all nodes alone.
#[verifier::external_body]
pub(crate) fn graph_set_edge_weight(
    g: &mut petgraph::graph::DiGraph<SpanTiming, usize>,
    k: usize,
    w: usize,
)
    requires
        k < gedges(*old(g)).len(),
    ensures
        gedges(*final(g)) == gedges(*old(g)).update(
            k as int,
            (gedges(*old(g))[k as int].0, gedges(*old(g))[k as int].1, w as nat),
        ),
        gnodes(*final(g)) == gnodes(*old(g)),
{
    if let Some(weight) = g.edge_weight_mut(petgraph::graph::EdgeIndex::new(k)) {
        *weight = w;
    }
}

/// Relies on `petgraph::graph::Graph::add_edge`: appends one edge from `a`
/// to `b` with the given weight; both endpoints must be existing nodes.
#[verifier::external_body]
pub(crate) fn graph_add_edge(
    g: &mut petgraph::graph::DiGraph<SpanTiming, usize>,
    a: usize,
    b: usize,
    w: usize,
)
    requires
        a < gnodes(*old(g)).len(),
        b < gnodes(*old(g)).len(),
        gedges(*old(g)).len() < 0xFFFF_FFFF,
    ensures
        gedges(*final(g)) == gedges(*old(g)).push((a as nat, b as nat, w as nat)),
        gnodes(*final(g)) == gnodes(*old(g)),
{
    g.add_edge(
        petgraph::graph::NodeIndex::new(a),
        petgraph::graph::NodeIndex::new(b),
        w,
    );
}

/// Relies on `petgraph::graph::Graph::raw_edges`: the edges in storage
/// order, each as (source position, target position, weight).
#[verifier::external_body]
pub(crate) fn graph_edges_vec(g: &petgraph::graph::DiGraph<SpanTiming, usize>) -> (r: Vec<(usize, usize, usize)>)
    ensures
        r@.len() == gedges(*g).len(),
        forall|k: int| 0 <= k < r@.len() ==> (r@[k].0 as nat, r@[k].1 as nat, r@[k].2 as nat)
            == gedges(*g)[k],
{
    g.raw_edges()
        .iter()
        .map(|e| (e.source().index(), e.target().index(), e.weight))
        .collect()
}

/// Relies on `petgraph::graph::Graph::clear`: removes all nodes and edges.
#[verifier::external_body]
pub(crate) fn graph_clear(g: &mut petgraph::graph::DiGraph<SpanTiming, usize>)
    ensures
        gnodes(*final(g)) == Seq::<NodeRec>::empty(),
        gedges(*final(g)) == Seq::<EdgeRec>::empty(),
{
    g.clear();
}

/// The node order that the strongly-connected-component decomposition
/// yields for a graph: the components, concatenated in reverse of the
/// order `kosaraju_scc` returns them. The algorithm is deterministic, so
/// the order is a function of the graph value.
pub uninterp spec fn scc_order_of(g: petgraph::graph::DiGraph<SpanTiming, usize>) -> Seq<usize>;

/// Relies on `petgraph::algo::kosaraju_scc`: the strongly connected
/// components of the graph partition its node set. The components are
/// walked in reverse topological order and concatenated, so every node
/// position appears exactly once and callers tend to precede callees.
#[verifier::external_body]
pub(crate) fn graph_scc_order(g: &petgraph::graph::DiGraph<SpanTiming, usize>) -> (r: Vec<usize>)
    ensures
        r@ == scc_order_of(*g),
        r@.len() == gnodes(*g).len(),
        forall|k: int| 0 <= k < r@.len() ==> r@[k] < gnodes(*g).len(),
        forall|k1: int, k2: int| 0 <= k1 < k2 < r@.len() ==> r@[k1] != r@[k2],
{
    petgraph::algo::kosaraju_scc(g)
        .iter()
        .rev()
        .flatten()
        .map(|n| n.index())
        .collect()
}

/// The graphviz dot text of a graph with the given node and edge records.
/// `Dot` walks the node and edge arrays in storage order and prints each
/// node with its [`crate::export::spec_node_label`] label and each edge
/// with its weight, so the text is a function of the two record
/// sequences.
pub uninterp spec fn dot_text_of(ns: Seq<NodeRec>, es: Seq<EdgeRec>) -> Seq<char>;

/// Relies on `petgraph::graph::Graph::map` and `petgraph::dot::Dot`:
/// renders every node, labelled by [`crate::export::node_label`], and every
/// directed edge with its call-count weight, in graphviz dot form.
#[verifier::external_body]
pub(crate) fn graph_dot(g: &petgraph::graph::DiGraph<SpanTiming, usize>) -> (r: String)
    ensures
        r@ == dot_text_of(gnodes(*g), gedges(*g)),
{
    let labeled = g.map(|_, n| crate::export::node_label(n), |_, e| *e);
    petgraph::dot::Dot::new(&labeled).to_string()
}

} // verus!
