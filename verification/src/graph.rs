//! The span call graph: one node per distinct full span name, weighted
//! directed edges counting how often one name directly enclosed another.

use vstd::prelude::*;

verus! {

/// Data associated with the set of spans sharing one full name.
///
/// All spans with the same full name are grouped together, so that repeated
/// calls to the same function accumulate into a single node.
#[derive(Clone, Debug)]
pub struct SpanTiming {
    /// Span identifier, monotonically increasing in creation order
    pub id: usize,
    /// Full span name, including the module path or span target
    pub name: String,
    /// Total elapsed time, in nanoseconds, over all spans sharing this name
    pub elapsed: u64,
    /// Number of times a span with this name has been closed
    pub called: usize,
}

/// A node record as the specifications see it: id, name, elapsed
/// nanoseconds, and call count.
pub type NodeRec = (nat, Seq<char>, nat, nat);

/// An edge record as the specifications see it: caller node position,
/// callee node position, and call count.
pub type EdgeRec = (nat, nat, nat);

impl SpanTiming {
    /// The node record this value denotes.
    pub open spec fn rec(self) -> NodeRec {
        (self.id as nat, self.name@, self.elapsed as nat, self.called as nat)
    }

    /// A fresh node for `name`, with no time and no calls recorded yet.
    pub fn new(name: String, id: usize) -> (r: SpanTiming)
        ensures
            r.rec() == (id as nat, name@, 0nat, 0nat),
    {
        SpanTiming { id, name, elapsed: 0, called: 0 }
    }
}

/// Whether some node of `ns` is named `nm`.
pub open spec fn has_name(ns: Seq<NodeRec>, nm: Seq<char>) -> bool {
    exists|i: int| 0 <= i < ns.len() && ns[i].1 == nm
}

/// The position of the node named `nm`; meaningful when `has_name` holds
/// and node names are distinct.
pub open spec fn name_ix(ns: Seq<NodeRec>, nm: Seq<char>) -> int {
    choose|i: int| 0 <= i < ns.len() && ns[i].1 == nm
}

/// Node records are well formed: each node's id is its position, and no two
/// nodes share a name.
pub open spec fn nodes_wf(ns: Seq<NodeRec>) -> bool {
    &&& forall|i: int| 0 <= i < ns.len() ==> (#[trigger] ns[i]).0 == i
    &&& forall|i: int, j: int| 0 <= i < j < ns.len() ==> (#[trigger] ns[i]).1 != (#[trigger] ns[j]).1
}

/// Edge records are well formed for a graph of `n` nodes: endpoints are
/// node positions, and no ordered pair of endpoints appears twice.
pub open spec fn edges_wf(es: Seq<EdgeRec>, n: nat) -> bool {
    &&& forall|k: int| 0 <= k < es.len() ==> (#[trigger] es[k]).0 < n && es[k].1 < n
    &&& forall|k1: int, k2: int|
        0 <= k1 < k2 < es.len() ==> !((#[trigger] es[k1]).0 == (#[trigger] es[k2]).0
            && es[k1].1 == es[k2].1)
}

/// The nodes after `find_or_create(nm)`: unchanged when the name is
/// present, extended by one fresh node otherwise.
pub open spec fn foc_nodes(ns: Seq<NodeRec>, nm: Seq<char>) -> Seq<NodeRec> {
    if has_name(ns, nm) {
        ns
    } else {
        ns.push((ns.len(), nm, 0nat, 0nat))
    }
}

/// The handle `find_or_create(nm)` returns: the position of the node named
/// `nm`, existing or fresh.
pub open spec fn foc_ix(ns: Seq<NodeRec>, nm: Seq<char>) -> int {
    if has_name(ns, nm) {
        name_ix(ns, nm)
    } else {
        ns.len() as int
    }
}

/// The nodes after `increase_timing` on the node at `i`: `t` more
/// nanoseconds of elapsed time and one more call.
pub open spec fn add_timing(ns: Seq<NodeRec>, i: int, t: nat) -> Seq<NodeRec> {
    ns.update(i, (ns[i].0, ns[i].1, ns[i].2 + t, ns[i].3 + 1))
}

/// The edges after `increase_call_count(a, b)`: the first edge from `a` to
/// `b` gains one call, or a fresh edge of weight one is appended when no
/// such edge exists.
pub open spec fn bump_call(es: Seq<EdgeRec>, a: nat, b: nat) -> Seq<EdgeRec>
    decreases es.len(),
{
    if es.len() == 0 {
        seq![(a, b, 1nat)]
    } else if es[0].0 == a && es[0].1 == b {
        seq![(es[0].0, es[0].1, (es[0].2 + 1) as nat)] + es.drop_first()
    } else {
        seq![es[0]] + bump_call(es.drop_first(), a, b)
    }
}

/// When the edge at `k` is the only one from `a` to `b`, bumping the call
/// count from `a` to `b` updates exactly that edge.
proof fn lemma_bump_at(es: Seq<EdgeRec>, a: nat, b: nat, k: int)
    requires
        0 <= k < es.len(),
        es[k].0 == a && es[k].1 == b,
        forall|j: int|
            0 <= j < es.len() && j != k ==> !((#[trigger] es[j]).0 == a && es[j].1 == b),
    ensures
        bump_call(es, a, b) == es.update(k, (a, b, (es[k].2 + 1) as nat)),
    decreases k,
{
    if k == 0 {
        assert(bump_call(es, a, b) =~= es.update(0, (a, b, (es[0].2 + 1) as nat)));
    } else {
        assert(!(es[0].0 == a && es[0].1 == b));
        let tail = es.drop_first();
        assert forall|j: int|
            0 <= j < tail.len() && j != k - 1 implies !((#[trigger] tail[j]).0 == a
            && tail[j].1 == b) by {
            assert(tail[j] == es[j + 1]);
        }
        assert(tail[k - 1] == es[k]);
        lemma_bump_at(tail, a, b, k - 1);
        assert(bump_call(es, a, b) =~= es.update(k, (a, b, (es[k].2 + 1) as nat)));
    }
}

/// When no edge from `a` to `b` exists, bumping the call count appends a
/// fresh edge of weight one.
proof fn lemma_bump_absent(es: Seq<EdgeRec>, a: nat, b: nat)
    requires
        forall|j: int| 0 <= j < es.len() ==> !((#[trigger] es[j]).0 == a && es[j].1 == b),
    ensures
        bump_call(es, a, b) == es.push((a, b, 1nat)),
    decreases es.len(),
{
    if es.len() == 0 {
        assert(bump_call(es, a, b) =~= es.push((a, b, 1nat)));
    } else {
        let tail = es.drop_first();
        assert forall|j: int|
            0 <= j < tail.len() implies !((#[trigger] tail[j]).0 == a && tail[j].1 == b) by {
            assert(tail[j] == es[j + 1]);
        }
        lemma_bump_absent(tail, a, b);
        assert(bump_call(es, a, b) =~= es.push((a, b, 1nat)));
    }
}

/// Opaque span handle inside a `SpanGraph`, valid until the graph is cleared.
#[derive(Clone, Copy, Debug, PartialEq, Eq, Structural)]
pub struct SpanIndex(pub usize);

/// A set of calls from one span to another.
pub struct Calls {
    /// the outer/calling span
    pub caller: SpanIndex,
    /// the inner/called span
    pub callee: SpanIndex,
    /// number of times the callee span was directly enclosed by the caller
    pub count: usize,
}

/// Full span graph: one node per distinct full span name, each directed
/// edge counting how often the source span directly enclosed the target.
pub struct SpanGraph {
    g: petgraph::graph::DiGraph<SpanTiming, usize>,
    last_id: usize,
}

impl SpanGraph {
    /// The node records of this graph, in creation order.
    pub closed spec fn nodes(self) -> Seq<NodeRec> {
        crate::pgraph::gnodes(self.g)
    }

    /// The edge records of this graph, in creation order.
    pub closed spec fn edges(self) -> Seq<EdgeRec> {
        crate::pgraph::gedges(self.g)
    }

    /// The graph's invariant: well-formed nodes and edges, and the next id
    /// to assign equals the node count.
    pub closed spec fn wf(self) -> bool {
        &&& nodes_wf(self.nodes())
        &&& edges_wf(self.edges(), self.nodes().len())
        &&& self.last_id == self.nodes().len()
    }

    /// Create a new empty `SpanGraph`.
    pub fn new() -> (r: SpanGraph)
        ensures
            r.wf(),
            r.nodes() == Seq::<NodeRec>::empty(),
            r.edges() == Seq::<EdgeRec>::empty(),
    {
        SpanGraph { g: crate::pgraph::graph_new(), last_id: 0 }
    }

    /// Find a span in the graph, given its full name.
    pub fn find(&self, name: &str) -> (r: Option<SpanIndex>)
        requires
            self.wf(),
        ensures
            r == (if has_name(self.nodes(), name@) {
                Some(SpanIndex(name_ix(self.nodes(), name@) as usize))
            } else {
                None::<SpanIndex>
            }),
    {
        let key: String = name.to_owned();
        let n = crate::pgraph::graph_node_count(&self.g);
        let mut i: usize = 0;
        while i < n
            invariant
                self.wf(),
                n == self.nodes().len(),
                i <= n,
                key@ == name@,
                forall|j: int| 0 <= j < i ==> (#[trigger] self.nodes()[j]).1 != name@,
            decreases n - i,
        {
            let node = crate::pgraph::graph_node(&self.g, i);
            if node.name == key {
                proof {
                    assert(self.nodes()[i as int].1 == name@);
                    assert(has_name(self.nodes(), name@));
                    let k = name_ix(self.nodes(), name@);
                    assert(0 <= k < self.nodes().len() && self.nodes()[k].1 == name@);
                    if k < i as int {
                        assert(self.nodes()[k].1 != self.nodes()[i as int].1);
                    } else if k > i as int {
                        assert(self.nodes()[i as int].1 != self.nodes()[k].1);
                    }
                }
                return Some(SpanIndex(i));
            }
            i = i + 1;
        }
        None
    }

    /// Find the span with this full name, or create a fresh node for it;
    /// either way, return its handle.
    pub fn find_or_create(&mut self, name: &str) -> (r: SpanIndex)
        requires
            old(self).wf(),
            !has_name(old(self).nodes(), name@) ==> old(self).nodes().len() < 0xFFFF_FFFF,
        ensures
            final(self).wf(),
            final(self).nodes() == foc_nodes(old(self).nodes(), name@),
            final(self).edges() == old(self).edges(),
            r.0 == foc_ix(old(self).nodes(), name@),
            r.0 < final(self).nodes().len(),
            final(self).nodes()[r.0 as int].1 == name@,
    {
        match self.find(name) {
            Some(ix) => ix,
            None => {
                let node = SpanTiming::new(name.to_owned(), self.last_id);
                let i = crate::pgraph::graph_add_node(&mut self.g, node);
                self.last_id = self.last_id + 1;
                proof {
                    let ns = old(self).nodes();
                    assert forall|i1: int, j1: int|
                        0 <= i1 < j1 < self.nodes().len() implies !((#[trigger] self.nodes()[
                        i1]).1 == (#[trigger] self.nodes()[j1]).1) by {
                        if j1 < ns.len() {
                            assert(ns[i1].1 != ns[j1].1);
                        } else {
                            assert(!(ns[i1].1 == name@));
                        }
                    }
                }
                SpanIndex(i)
            },
        }
    }

    /// Add `time` nanoseconds to the span's accumulated elapsed time and
    /// count one more call to it.
    pub fn increase_timing(&mut self, span: SpanIndex, time: u64)
        requires
            old(self).wf(),
            span.0 < old(self).nodes().len(),
            old(self).nodes()[span.0 as int].2 + time <= u64::MAX,
            old(self).nodes()[span.0 as int].3 + 1 <= usize::MAX,
        ensures
            final(self).wf(),
            final(self).nodes() == add_timing(old(self).nodes(), span.0 as int, time as nat),
            final(self).edges() == old(self).edges(),
    {
        let node = crate::pgraph::graph_node(&self.g, span.0);
        let updated = SpanTiming {
            id: node.id,
            name: node.name.clone(),
            elapsed: node.elapsed + time,
            called: node.called + 1,
        };
        crate::pgraph::graph_set_node(&mut self.g, span.0, updated);
    }

    /// Count one more call from the `parent` span to the `child` span:
    /// increment the weight of the edge between them, creating it with
    /// weight one when it is not there yet.
    pub fn increase_call_count(&mut self, parent: SpanIndex, child: SpanIndex)
        requires
            old(self).wf(),
            parent.0 < old(self).nodes().len(),
            child.0 < old(self).nodes().len(),
            old(self).edges().len() < 0xFFFF_FFFF,
            forall|k: int|
                0 <= k < old(self).edges().len() && (#[trigger] old(self).edges()[k]).0
                    == parent.0 && old(self).edges()[k].1 == child.0 ==> old(self).edges()[k].2
                    + 1 <= usize::MAX,
        ensures
            final(self).wf(),
            final(self).nodes() == old(self).nodes(),
            final(self).edges() == bump_call(
                old(self).edges(),
                parent.0 as nat,
                child.0 as nat,
            ),
    {
        let ghost es = old(self).edges();
        let ghost a = parent.0 as nat;
        let ghost b = child.0 as nat;
        match crate::pgraph::graph_find_edge(&self.g, parent.0, child.0) {
            Some(k) => {
                let w = crate::pgraph::graph_edge_weight(&self.g, k);
                proof {
                    assert(es[k as int].2 + 1 <= usize::MAX);
                    assert forall|j: int|
                        0 <= j < es.len() && j != k as int implies !((#[trigger] es[j]).0 == a
                        && es[j].1 == b) by {
                        if es[j].0 == a && es[j].1 == b {
                            assert(!(es[j].0 == es[k as int].0 && es[j].1 == es[k as int].1));
                        }
                    }
                    lemma_bump_at(es, a, b, k as int);
                }
                crate::pgraph::graph_set_edge_weight(&mut self.g, k, w + 1);
                proof {
                    assert forall|k1: int, k2: int|
                        0 <= k1 < k2 < self.edges().len() implies !((#[trigger] self.edges()[
                        k1]).0 == (#[trigger] self.edges()[k2]).0 && self.edges()[k1].1
                            == self.edges()[k2].1) by {
                        assert(self.edges()[k1].0 == es[k1].0 && self.edges()[k1].1 == es[k1].1);
                        assert(self.edges()[k2].0 == es[k2].0 && self.edges()[k2].1 == es[k2].1);
                    }
                }
            },
            None => {
                proof {
                    lemma_bump_absent(es, a, b);
                }
                crate::pgraph::graph_add_edge(&mut self.g, parent.0, child.0, 1);
            },
        }
    }

    /// Get a single span's data, knowing its handle.
    pub fn span(&self, id: SpanIndex) -> (r: &SpanTiming)
        requires
            self.wf(),
            id.0 < self.nodes().len(),
        ensures
            r.rec() == self.nodes()[id.0 as int],
    {
        crate::pgraph::graph_node(&self.g, id.0)
    }

    /// The full list of spans known by this graph, in creation order.
    pub fn spans(&self) -> (r: Vec<SpanTiming>)
        requires
            self.wf(),
        ensures
            r@.len() == self.nodes().len(),
            forall|i: int| 0 <= i < r@.len() ==> (#[trigger] r@[i]).rec() == self.nodes()[i],
    {
        crate::pgraph::graph_nodes_vec(&self.g)
    }

    /// The list of calls between spans in this graph, in creation order.
    pub fn calls(&self) -> (r: Vec<Calls>)
        requires
            self.wf(),
        ensures
            r@.len() == self.edges().len(),
            forall|k: int|
                0 <= k < r@.len() ==> ((#[trigger] r@[k]).caller.0 as nat, r@[k].callee.0 as nat,
                    r@[k].count as nat) == self.edges()[k],
    {
        let es = crate::pgraph::graph_edges_vec(&self.g);
        let mut out: Vec<Calls> = Vec::new();
        let mut k: usize = 0;
        while k < es.len()
            invariant
                k <= es.len(),
                es@.len() == self.edges().len(),
                forall|j: int|
                    0 <= j < es@.len() ==> ((#[trigger] es@[j]).0 as nat, es@[j].1 as nat,
                        es@[j].2 as nat) == self.edges()[j],
                out@.len() == k,
                forall|j: int|
                    0 <= j < k ==> ((#[trigger] out@[j]).caller.0 as nat, out@[j].callee.0 as nat,
                        out@[j].count as nat) == self.edges()[j],
            decreases es.len() - k,
        {
            let e = es[k];
            out.push(Calls { caller: SpanIndex(e.0), callee: SpanIndex(e.1), count: e.2 });
            k = k + 1;
        }
        out
    }

    /// Remove all nodes and edges, and restart id assignment at zero.
    pub fn clear(&mut self)
        ensures
            final(self).wf(),
            final(self).nodes() == Seq::<NodeRec>::empty(),
            final(self).edges() == Seq::<EdgeRec>::empty(),
    {
        crate::pgraph::graph_clear(&mut self.g);
        self.last_id = 0;
    }

    /// The number of nodes in the graph.
    pub(crate) fn count_nodes(&self) -> (n: usize)
        ensures
            n == self.nodes().len(),
    {
        crate::pgraph::graph_node_count(&self.g)
    }

    /// The reporting order of this graph's nodes: strongly connected
    /// components condensed, in reverse topological order.
    pub closed spec fn order(self) -> Seq<usize> {
        crate::pgraph::scc_order_of(self.g)
    }

    /// A traversal order for reporting: every node position exactly once,
    /// strongly connected components condensed and emitted in reverse
    /// topological order, so the order is well defined even on cyclic
    /// graphs.
    pub fn scc_order(&self) -> (r: Vec<usize>)
        requires
            self.wf(),
        ensures
            r@ == self.order(),
            is_index_perm(r@, self.nodes().len()),
    {
        crate::pgraph::graph_scc_order(&self.g)
    }

    /// The rendered graphviz dot form of the graph.
    pub(crate) fn dot_raw(&self) -> (r: String)
        ensures
            r@ == crate::pgraph::dot_text_of(self.nodes(), self.edges()),
    {
        crate::pgraph::graph_dot(&self.g)
    }
}

/// The facts `wf()` guarantees of every graph the operations hand out:
/// each node's id is its position, node names are distinct, edges run
/// between existing nodes with no ordered pair repeated, and the node
/// count fits a `usize`.
pub proof fn lemma_wf_invariants(g: SpanGraph)
    requires
        g.wf(),
    ensures
        nodes_wf(g.nodes()),
        edges_wf(g.edges(), g.nodes().len()),
        g.nodes().len() <= usize::MAX,
{
}

/// Whether `p` lists every position below `n` exactly once.
pub open spec fn is_index_perm(p: Seq<usize>, n: nat) -> bool {
    &&& p.len() == n
    &&& forall|k: int| 0 <= k < p.len() ==> (#[trigger] p[k]) < n
    &&& forall|k1: int, k2: int| 0 <= k1 < k2 < p.len() ==> p[k1] != p[k2]
}

} // verus!
