use tracing_timing_graph::{SpanGraph, SpanIndex};

#[test]
fn find_or_create_same_handle_twice() {
    let mut g = SpanGraph::new();
    let a = g.find_or_create("alpha");
    let b = g.find_or_create("alpha");
    assert_eq!(a, b);
    assert_eq!(g.spans().len(), 1);
    assert_eq!(g.spans()[0].name, "alpha");
    assert_eq!(g.spans()[0].id, 0);
    assert_eq!(g.spans()[0].called, 0);
    assert_eq!(g.spans()[0].elapsed, 0);
}

#[test]
fn find_or_create_assigns_increasing_ids() {
    let mut g = SpanGraph::new();
    let a = g.find_or_create("one");
    let b = g.find_or_create("two");
    let c = g.find_or_create("three");
    assert_ne!(a, b);
    assert_ne!(b, c);
    assert_eq!(g.span(a).id, 0);
    assert_eq!(g.span(b).id, 1);
    assert_eq!(g.span(c).id, 2);
}

#[test]
fn find_absent_and_present() {
    let mut g = SpanGraph::new();
    assert!(g.find("missing").is_none());
    let h = g.find_or_create("here");
    assert_eq!(g.find("here"), Some(h));
    assert!(g.find("missing").is_none());
}

#[test]
fn increase_timing_accumulates() {
    let mut g = SpanGraph::new();
    let h = g.find_or_create("work");
    g.increase_timing(h, 1);
    g.increase_timing(h, 2);
    g.increase_timing(h, 3);
    let node = g.span(h);
    assert_eq!(node.called, 3);
    assert_eq!(node.elapsed, 6);
}

#[test]
fn increase_call_count_single_edge() {
    let mut g = SpanGraph::new();
    let a = g.find_or_create("caller");
    let b = g.find_or_create("callee");
    for _ in 0..5 {
        g.increase_call_count(a, b);
    }
    let calls = g.calls();
    assert_eq!(calls.len(), 1);
    assert_eq!(calls[0].caller, a);
    assert_eq!(calls[0].callee, b);
    assert_eq!(calls[0].count, 5);
}

#[test]
fn parallel_pairs_stay_separate() {
    let mut g = SpanGraph::new();
    let a = g.find_or_create("a");
    let b = g.find_or_create("b");
    g.increase_call_count(a, b);
    g.increase_call_count(b, a);
    g.increase_call_count(a, b);
    let calls = g.calls();
    assert_eq!(calls.len(), 2);
    let ab = calls.iter().find(|c| c.caller == a && c.callee == b).unwrap();
    let ba = calls.iter().find(|c| c.caller == b && c.callee == a).unwrap();
    assert_eq!(ab.count, 2);
    assert_eq!(ba.count, 1);
}

#[test]
fn clear_removes_everything_and_restarts_ids() {
    let mut g = SpanGraph::new();
    let a = g.find_or_create("one");
    let b = g.find_or_create("two");
    g.increase_timing(a, 5);
    g.increase_call_count(a, b);
    g.clear();
    assert_eq!(g.spans().len(), 0);
    assert_eq!(g.calls().len(), 0);
    let c = g.find_or_create("fresh");
    assert_eq!(g.span(c).id, 0);
    assert_eq!(c, SpanIndex(0));
}

#[test]
fn scc_order_is_a_permutation() {
    let mut g = SpanGraph::new();
    let a = g.find_or_create("a");
    let b = g.find_or_create("b");
    let c = g.find_or_create("c");
    g.increase_call_count(a, b);
    g.increase_call_count(b, c);
    g.increase_call_count(c, a);
    let mut order = g.scc_order();
    assert_eq!(order.len(), 3);
    order.sort();
    assert_eq!(order, vec![0, 1, 2]);
}

#[test]
fn span_text_exact() {
    let mut g = SpanGraph::new();
    let h = g.find_or_create("job");
    g.increase_timing(h, 1_500_000);
    assert_eq!(g.span(h).to_text(), "job ran for 1.50ms, called 1 times");
}

#[test]
fn table_has_one_row_per_node() {
    let mut g = SpanGraph::new();
    let a = g.find_or_create("first_span");
    let b = g.find_or_create("second_span");
    g.increase_timing(a, 10_000_000);
    g.increase_timing(b, 2_000);
    g.increase_call_count(a, b);
    let table = g.as_table();
    assert_eq!(table.matches("first_span").count(), 1);
    assert_eq!(table.matches("second_span").count(), 1);
    assert!(table.contains("10.00ms"));
    assert!(table.contains("2.00µs"));
    // the root span is called by nobody
    assert!(table.contains("—"));
}

#[test]
fn table_lists_callers_before_callees() {
    let mut g = SpanGraph::new();
    let a = g.find_or_create("outer_span");
    let b = g.find_or_create("inner_span");
    g.increase_timing(a, 1_000);
    g.increase_timing(b, 500);
    g.increase_call_count(a, b);
    let table = g.as_table();
    let outer = table.find("outer_span").unwrap();
    let inner = table.find("inner_span").unwrap();
    assert!(outer < inner);
}

#[test]
fn dot_output_lists_nodes_and_edges() {
    let mut g = SpanGraph::new();
    let a = g.find_or_create("outer");
    let b = g.find_or_create("inner");
    g.increase_timing(a, 1_000);
    g.increase_timing(b, 500);
    g.increase_call_count(a, b);
    let dot = g.as_dot();
    assert!(dot.contains("outer ran for 1.00µs, called 1 times"));
    assert!(dot.contains("inner ran for 500.00ns, called 1 times"));
    assert!(dot.contains("->"));
}
