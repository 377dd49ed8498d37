//! Per-span timing state and the span-close bookkeeping.
//!
//! A span instance owns one [`SpanTimingExtension`]: a possibly-open start
//! token and a running elapsed total over repeated enter/exit cycles. When
//! the host closes the span, [`record_close`] folds the accumulated time
//! into the shared [`SpanGraph`] and counts the call from the parent span.

use vstd::prelude::*;

use crate::graph::{
    add_timing, bump_call, foc_ix, foc_nodes, EdgeRec, NodeRec, SpanGraph, SpanIndex,
};

verus! {

/// Ephemeral timing state attached to one live span instance.
pub struct SpanTimingExtension {
    /// Last start of this span, as a clock token; present only between a
    /// matched enter and the following exit
    start: Option<u64>,
    /// Total elapsed nanoseconds on this span, over all enter/exit pairs
    elapsed: u64,
}

impl SpanTimingExtension {
    /// Whether the instance is currently entered.
    pub closed spec fn is_started(self) -> bool {
        self.start is Some
    }

    /// The start token recorded at the last enter.
    pub closed spec fn start_spec(self) -> u64 {
        self.start->0
    }

    /// The elapsed nanoseconds accumulated so far.
    pub closed spec fn elapsed_spec(self) -> nat {
        self.elapsed as nat
    }

    /// Fresh state: not entered, nothing accumulated.
    pub fn new() -> (r: SpanTimingExtension)
        ensures
            !r.is_started(),
            r.elapsed_spec() == 0,
    {
        SpanTimingExtension { start: None, elapsed: 0 }
    }

    /// Record entering the span: store the clock token of the enter.
    pub fn on_enter(&mut self, token: u64)
        requires
            !old(self).is_started(),
        ensures
            final(self).is_started(),
            final(self).start_spec() == token,
            final(self).elapsed_spec() == old(self).elapsed_spec(),
    {
        self.start = Some(token);
    }

    /// Whether the instance is currently entered.
    pub fn started(&self) -> (r: bool)
        ensures
            r == self.is_started(),
    {
        self.start.is_some()
    }

    /// The token stored at the last enter, for computing the elapsed delta.
    pub fn start_token(&self) -> (r: u64)
        requires
            self.is_started(),
        ensures
            r == self.start_spec(),
    {
        match self.start {
            Some(t) => t,
            None => 0,
        }
    }

    /// Record exiting the span: fold `delta` nanoseconds into the running
    /// total and clear the start marker.
    pub fn on_exit(&mut self, delta: u64)
        requires
            old(self).is_started(),
            old(self).elapsed_spec() + delta <= u64::MAX,
        ensures
            !final(self).is_started(),
            final(self).elapsed_spec() == old(self).elapsed_spec() + delta,
    {
        self.elapsed = self.elapsed + delta;
        self.start = None;
    }

    /// The accumulated elapsed nanoseconds, read by the close handler.
    pub fn elapsed_ns(&self) -> (r: u64)
        ensures
            r == self.elapsed_spec(),
    {
        self.elapsed
    }
}

/// Whether the name holds a space character, the mark of auto-generated or
/// anonymous span names.
pub open spec fn spec_has_space(s: Seq<char>) -> bool {
    exists|i: int| 0 <= i < s.len() && s[i] == ' '
}

/// The full qualifying name: the prefix (module path, or target when no
/// module path is known), `::`, then the short name, wrapped in braces when
/// it holds a space.
pub open spec fn spec_full_name(prefix: Seq<char>, name: Seq<char>) -> Seq<char> {
    prefix + "::"@ + (if spec_has_space(name) {
        "{"@ + name + "}"@
    } else {
        name
    })
}

/// Whether `s` holds a space character.
pub fn contains_space(s: &str) -> (r: bool)
    ensures
        r == spec_has_space(s@),
{
    let n = s.unicode_len();
    let mut i: usize = 0;
    while i < n
        invariant
            n == s@.len(),
            i <= n,
            forall|j: int| 0 <= j < i ==> s@[j] != ' ',
        decreases n - i,
    {
        if s.get_char(i) == ' ' {
            return true;
        }
        i = i + 1;
    }
    false
}

/// Resolve a span's full name from its module path (or fallback target)
/// and its short name.
pub fn full_name(path: Option<&str>, target: &str, name: &str) -> (r: String)
    ensures
        r@ == spec_full_name(
            match path {
                Some(p) => p@,
                None => target@,
            },
            name@,
        ),
{
    let mut out: String = match path {
        Some(p) => p.to_owned(),
        None => target.to_owned(),
    };
    out.append("::");
    if contains_space(name) {
        out.append("{");
        out.append(name);
        out.append("}");
    } else {
        out.append(name);
    }
    out
}

/// The node records after the parent's node — when a parent exists — has
/// been created or found, and before the span's own node is touched.
pub open spec fn close_ns1(ns: Seq<NodeRec>, parent: Option<Seq<char>>) -> Seq<NodeRec> {
    match parent {
        Some(p) => foc_nodes(ns, p),
        None => ns,
    }
}

/// The node records after a span named `nm` with the given parent closes
/// with `t` accumulated nanoseconds: the parent's node is created first
/// when absent, then the span's own node, which gains `t` and one call.
pub open spec fn close_nodes(
    ns: Seq<NodeRec>,
    nm: Seq<char>,
    parent: Option<Seq<char>>,
    t: nat,
) -> Seq<NodeRec> {
    let ns1 = close_ns1(ns, parent);
    let ns2 = foc_nodes(ns1, nm);
    add_timing(ns2, foc_ix(ns1, nm), t)
}

/// The edge records after that close: one more call from the parent's node
/// to the span's own node, when a parent exists.
pub open spec fn close_edges(
    ns: Seq<NodeRec>,
    es: Seq<EdgeRec>,
    nm: Seq<char>,
    parent: Option<Seq<char>>,
) -> Seq<EdgeRec> {
    match parent {
        Some(p) => {
            let ns1 = foc_nodes(ns, p);
            bump_call(es, foc_ix(ns, p) as nat, foc_ix(ns1, nm) as nat)
        },
        None => es,
    }
}

/// The machine limits under which a close can be recorded: room for two
/// more nodes and one more edge, and no counter overflows.
pub open spec fn close_ready(
    ns: Seq<NodeRec>,
    es: Seq<EdgeRec>,
    nm: Seq<char>,
    parent: Option<Seq<char>>,
    t: nat,
) -> bool {
    let ns1 = match parent {
        Some(p) => foc_nodes(ns, p),
        None => ns,
    };
    let ns2 = foc_nodes(ns1, nm);
    let ci = foc_ix(ns1, nm);
    &&& ns.len() + 2 <= 0xFFFF_FFFF
    &&& es.len() < 0xFFFF_FFFF
    &&& ns2[ci].2 + t <= u64::MAX
    &&& ns2[ci].3 + 1 <= usize::MAX
    &&& match parent {
        Some(p) => forall|k: int|
            0 <= k < es.len() && (#[trigger] es[k]).0 == foc_ix(ns, p) && es[k].1 == ci
                ==> es[k].2 + 1 <= usize::MAX,
        None => true,
    }
}

/// The spec-level view of an optional short string.
pub open spec fn opt_view(parent: Option<&str>) -> Option<Seq<char>> {
    match parent {
        Some(p) => Some(p@),
        None => None,
    }
}

/// Record a span close in the shared graph: create or find the parent's
/// node first (when a parent exists), then the span's own node, add the
/// instance's accumulated time to it, and count the call from the parent.
pub fn record_close(graph: &mut SpanGraph, name: &str, parent: Option<&str>, elapsed: u64) -> (r:
    SpanIndex)
    requires
        old(graph).wf(),
        close_ready(
            old(graph).nodes(),
            old(graph).edges(),
            name@,
            opt_view(parent),
            elapsed as nat,
        ),
    ensures
        final(graph).wf(),
        final(graph).nodes() == close_nodes(
            old(graph).nodes(),
            name@,
            opt_view(parent),
            elapsed as nat,
        ),
        final(graph).edges() == close_edges(
            old(graph).nodes(),
            old(graph).edges(),
            name@,
            opt_view(parent),
        ),
        r.0 == foc_ix(close_ns1(old(graph).nodes(), opt_view(parent)), name@),
{
    let parent_ix = match parent {
        Some(p) => Some(graph.find_or_create(p)),
        None => None,
    };
    let current = graph.find_or_create(name);
    graph.increase_timing(current, elapsed);
    if let Some(pix) = parent_ix {
        graph.increase_call_count(pix, current);
    }
    current
}

} // verus!
