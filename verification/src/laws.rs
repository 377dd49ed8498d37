//! Laws of the span graph, stated over the same spec functions the public
//! contracts use and proved once and for all.

use vstd::prelude::*;

use crate::graph::{
    add_timing, bump_call, foc_ix, foc_nodes, has_name, name_ix, EdgeRec, NodeRec,
};
use crate::lifecycle::close_edges;

verus! {

/// The nodes after `k` repeated `increase_timing` calls on the node at
/// `i`, with the durations `ds`.
pub open spec fn apply_timings(ns: Seq<NodeRec>, i: int, ds: Seq<nat>) -> Seq<NodeRec>
    decreases ds.len(),
{
    if ds.len() == 0 {
        ns
    } else {
        apply_timings(add_timing(ns, i, ds[0]), i, ds.drop_first())
    }
}

/// The sum of a sequence of durations.
pub open spec fn seq_sum(ds: Seq<nat>) -> nat
    decreases ds.len(),
{
    if ds.len() == 0 {
        0
    } else {
        ds[0] + seq_sum(ds.drop_first())
    }
}

/// The edges after `m` repeated `increase_call_count` calls from `a` to
/// `b`.
pub open spec fn apply_calls(es: Seq<EdgeRec>, a: nat, b: nat, m: nat) -> Seq<EdgeRec>
    decreases m,
{
    if m == 0 {
        es
    } else {
        apply_calls(bump_call(es, a, b), a, b, (m - 1) as nat)
    }
}

/// How many edges from `a` to `b` the sequence holds.
pub open spec fn pair_count(es: Seq<EdgeRec>, a: nat, b: nat) -> nat
    decreases es.len(),
{
    if es.len() == 0 {
        0
    } else {
        (if es[0].0 == a && es[0].1 == b {
            1nat
        } else {
            0nat
        }) + pair_count(es.drop_first(), a, b)
    }
}

/// The weight of the first edge from `a` to `b`, or zero when there is
/// none.
pub open spec fn pair_weight(es: Seq<EdgeRec>, a: nat, b: nat) -> nat
    decreases es.len(),
{
    if es.len() == 0 {
        0
    } else if es[0].0 == a && es[0].1 == b {
        es[0].2
    } else {
        pair_weight(es.drop_first(), a, b)
    }
}

/// Law: `find_or_create` is idempotent. A second call with the same name
/// returns the same handle and leaves the nodes unchanged, and a single
/// call grows the graph by exactly one node when the name is absent and
/// none when it is present.
pub proof fn lemma_find_or_create_twice(ns: Seq<NodeRec>, nm: Seq<char>)
    ensures
        foc_nodes(foc_nodes(ns, nm), nm) == foc_nodes(ns, nm),
        foc_ix(foc_nodes(ns, nm), nm) == foc_ix(ns, nm),
        has_name(ns, nm) ==> foc_nodes(ns, nm) == ns,
        !has_name(ns, nm) ==> foc_nodes(ns, nm).len() == ns.len() + 1,
{
    if !has_name(ns, nm) {
        let ns1 = ns.push((ns.len(), nm, 0nat, 0nat));
        assert(ns1[ns.len() as int].1 == nm);
        assert(has_name(ns1, nm));
        let j = name_ix(ns1, nm);
        assert(0 <= j < ns1.len() && ns1[j].1 == nm);
        if j < ns.len() {
            assert(ns[j].1 == nm);
            assert(has_name(ns, nm));
        }
        assert(j == ns.len());
    }
}

/// Law: after `k` repeated `increase_timing` calls on the node at `i`,
/// its call count has grown by `k` and its elapsed time by the sum of the
/// durations, and every other node is unchanged.
pub proof fn lemma_repeated_timing(ns: Seq<NodeRec>, i: int, ds: Seq<nat>)
    requires
        0 <= i < ns.len(),
    ensures
        apply_timings(ns, i, ds).len() == ns.len(),
        apply_timings(ns, i, ds)[i].0 == ns[i].0,
        apply_timings(ns, i, ds)[i].1 == ns[i].1,
        apply_timings(ns, i, ds)[i].2 == ns[i].2 + seq_sum(ds),
        apply_timings(ns, i, ds)[i].3 == ns[i].3 + ds.len(),
        forall|j: int| 0 <= j < ns.len() && j != i ==> apply_timings(ns, i, ds)[j] == ns[j],
    decreases ds.len(),
{
    if ds.len() > 0 {
        let ns1 = add_timing(ns, i, ds[0]);
        lemma_repeated_timing(ns1, i, ds.drop_first());
        assert forall|j: int| 0 <= j < ns.len() && j != i implies apply_timings(ns, i, ds)[j]
            == ns[j] by {
            assert(apply_timings(ns, i, ds) == apply_timings(ns1, i, ds.drop_first()));
            assert(apply_timings(ns1, i, ds.drop_first())[j] == ns1[j]);
            assert(ns1[j] == ns[j]);
        }
    }
}

/// One `increase_call_count` step: when no edge from `a` to `b` exists one
/// edge of weight one appears, and otherwise the single edge's weight
/// grows by one; no parallel edge is ever created.
pub proof fn lemma_bump_effect(es: Seq<EdgeRec>, a: nat, b: nat)
    ensures
        pair_count(bump_call(es, a, b), a, b) == (if pair_count(es, a, b) == 0 {
            1nat
        } else {
            pair_count(es, a, b)
        }),
        pair_weight(bump_call(es, a, b), a, b) == (if pair_count(es, a, b) == 0 {
            1nat
        } else {
            (pair_weight(es, a, b) + 1) as nat
        }),
    decreases es.len(),
{
    if es.len() == 0 {
        let one = seq![(a, b, 1nat)];
        assert(bump_call(es, a, b) == one);
        assert(one.drop_first() =~= Seq::<EdgeRec>::empty());
        assert(pair_count(one.drop_first(), a, b) == 0);
        assert(pair_count(one, a, b) == 1);
        assert(pair_weight(one, a, b) == 1);
    } else if es[0].0 == a && es[0].1 == b {
        let bumped = seq![(es[0].0, es[0].1, (es[0].2 + 1) as nat)] + es.drop_first();
        assert(bump_call(es, a, b) == bumped);
        assert(bumped[0] == (es[0].0, es[0].1, (es[0].2 + 1) as nat));
        assert(bumped.drop_first() =~= es.drop_first());
        assert(pair_count(bumped, a, b) == 1 + pair_count(es.drop_first(), a, b));
        assert(pair_count(es, a, b) == 1 + pair_count(es.drop_first(), a, b));
        assert(pair_weight(bumped, a, b) == es[0].2 + 1);
        assert(pair_weight(es, a, b) == es[0].2);
    } else {
        let rest = bump_call(es.drop_first(), a, b);
        let kept = seq![es[0]] + rest;
        assert(bump_call(es, a, b) == kept);
        assert(kept[0] == es[0]);
        assert(kept.drop_first() =~= rest);
        lemma_bump_effect(es.drop_first(), a, b);
        assert(pair_count(kept, a, b) == pair_count(rest, a, b));
        assert(pair_count(es, a, b) == pair_count(es.drop_first(), a, b));
        assert(pair_weight(kept, a, b) == pair_weight(rest, a, b));
        assert(pair_weight(es, a, b) == pair_weight(es.drop_first(), a, b));
    }
}

/// Repeated `increase_call_count` keeps a single edge from `a` to `b` and
/// adds `m` to its weight.
proof fn lemma_calls_keep(es: Seq<EdgeRec>, a: nat, b: nat, m: nat)
    requires
        pair_count(es, a, b) == 1,
    ensures
        pair_count(apply_calls(es, a, b, m), a, b) == 1,
        pair_weight(apply_calls(es, a, b, m), a, b) == pair_weight(es, a, b) + m,
    decreases m,
{
    if m > 0 {
        lemma_bump_effect(es, a, b);
        lemma_calls_keep(bump_call(es, a, b), a, b, (m - 1) as nat);
    }
}

/// Law: `m` repeated `increase_call_count` calls from `a` to `b`, starting
/// with no edge between them, produce exactly one edge from `a` to `b`,
/// and its weight is `m`.
pub proof fn lemma_repeated_call_count(es: Seq<EdgeRec>, a: nat, b: nat, m: nat)
    requires
        pair_count(es, a, b) == 0,
        m >= 1,
    ensures
        pair_count(apply_calls(es, a, b, m), a, b) == 1,
        pair_weight(apply_calls(es, a, b, m), a, b) == m,
    decreases m,
{
    lemma_bump_effect(es, a, b);
    lemma_calls_keep(bump_call(es, a, b), a, b, (m - 1) as nat);
}

/// Law: on an empty graph — the state right after `clear` — the next
/// `find_or_create` creates the node with id zero and returns its handle.
pub proof fn lemma_clear_then_create(nm: Seq<char>)
    ensures
        foc_nodes(Seq::<NodeRec>::empty(), nm) == seq![(0nat, nm, 0nat, 0nat)],
        foc_ix(Seq::<NodeRec>::empty(), nm) == 0,
{
    assert(!has_name(Seq::<NodeRec>::empty(), nm));
    assert(Seq::<NodeRec>::empty().push((0nat, nm, 0nat, 0nat)) =~= seq![(0nat, nm, 0nat, 0nat)]);
}

/// Law: closing a span whose parent bears the same name bumps a self-loop
/// edge on the span's own node: a fresh self-loop of weight one when none
/// existed, and one more on the single existing self-loop otherwise.
pub proof fn lemma_self_recursive_close(ns: Seq<NodeRec>, es: Seq<EdgeRec>, nm: Seq<char>)
    ensures
        close_edges(ns, es, nm, Some(nm)) == bump_call(
            es,
            foc_ix(ns, nm) as nat,
            foc_ix(ns, nm) as nat,
        ),
        pair_count(es, foc_ix(ns, nm) as nat, foc_ix(ns, nm) as nat) == 0
            ==> pair_count(
            close_edges(ns, es, nm, Some(nm)),
            foc_ix(ns, nm) as nat,
            foc_ix(ns, nm) as nat,
        ) == 1 && pair_weight(
            close_edges(ns, es, nm, Some(nm)),
            foc_ix(ns, nm) as nat,
            foc_ix(ns, nm) as nat,
        ) == 1,
{
    lemma_find_or_create_twice(ns, nm);
    assert(foc_ix(foc_nodes(ns, nm), nm) == foc_ix(ns, nm));
    lemma_bump_effect(es, foc_ix(ns, nm) as nat, foc_ix(ns, nm) as nat);
}

} // verus!
