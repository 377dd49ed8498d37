use tracing_timing_graph::{full_name, record_close, SpanGraph, SpanTimingExtension};

#[test]
fn full_name_uses_module_path() {
    let n = full_name(Some("my_mod"), "my_target", "run");
    assert_eq!(n, "my_mod::run");
}

#[test]
fn full_name_falls_back_to_target() {
    let n = full_name(None, "my_target", "run");
    assert_eq!(n, "my_target::run");
}

#[test]
fn full_name_wraps_spaced_names_in_braces() {
    let n = full_name(Some("my_mod"), "my_target", "another span");
    assert_eq!(n, "my_mod::{another span}");
    let plain = full_name(Some("my_mod"), "my_target", "another_span");
    assert_eq!(plain, "my_mod::another_span");
}

#[test]
fn extension_accumulates_over_enter_exit_cycles() {
    let mut ext = SpanTimingExtension::new();
    assert_eq!(ext.elapsed_ns(), 0);
    ext.on_enter(5);
    assert_eq!(ext.start_token(), 5);
    ext.on_exit(7);
    assert_eq!(ext.elapsed_ns(), 7);
    ext.on_enter(9);
    assert_eq!(ext.start_token(), 9);
    ext.on_exit(3);
    assert_eq!(ext.elapsed_ns(), 10);
}

#[test]
fn close_without_parent_adds_no_edge() {
    let mut g = SpanGraph::new();
    let h = record_close(&mut g, "root", None, 42);
    assert_eq!(g.span(h).name, "root");
    assert_eq!(g.span(h).called, 1);
    assert_eq!(g.span(h).elapsed, 42);
    assert_eq!(g.calls().len(), 0);
}

#[test]
fn close_creates_parent_before_child() {
    let mut g = SpanGraph::new();
    let h = record_close(&mut g, "child", Some("parent"), 7);
    assert_eq!(g.span(h).name, "child");
    let spans = g.spans();
    assert_eq!(spans.len(), 2);
    assert_eq!(spans[0].name, "parent");
    assert_eq!(spans[0].id, 0);
    assert_eq!(spans[1].name, "child");
    assert_eq!(spans[1].id, 1);
    let calls = g.calls();
    assert_eq!(calls.len(), 1);
    assert_eq!(g.span(calls[0].caller).name, "parent");
    assert_eq!(g.span(calls[0].callee).name, "child");
    assert_eq!(calls[0].count, 1);
}

#[test]
fn self_recursive_span_gets_self_loop() {
    let mut g = SpanGraph::new();
    let h = record_close(&mut g, "rec", Some("rec"), 100);
    assert_eq!(g.spans().len(), 1);
    let calls = g.calls();
    assert_eq!(calls.len(), 1);
    assert_eq!(calls[0].caller, h);
    assert_eq!(calls[0].callee, h);
    assert_eq!(calls[0].count, 1);
    // the tabular export terminates and lists the node exactly once
    let table = g.as_table();
    assert_eq!(table.matches("rec").count(), 1);
}

#[test]
fn two_spans_end_to_end() {
    let mut g = SpanGraph::new();
    // span A closed once with 10ms accumulated, no parent
    record_close(&mut g, "A", None, 10_000_000);
    // span B closed twice, each time with parent A and 2ms accumulated
    record_close(&mut g, "B", Some("A"), 2_000_000);
    record_close(&mut g, "B", Some("A"), 2_000_000);
    let spans = g.spans();
    assert_eq!(spans.len(), 2);
    assert_eq!(spans[0].name, "A");
    assert_eq!(spans[0].elapsed, 10_000_000);
    assert_eq!(spans[0].called, 1);
    assert_eq!(spans[1].name, "B");
    assert_eq!(spans[1].elapsed, 4_000_000);
    assert_eq!(spans[1].called, 2);
    let calls = g.calls();
    assert_eq!(calls.len(), 1);
    assert_eq!(g.span(calls[0].caller).name, "A");
    assert_eq!(g.span(calls[0].callee).name, "B");
    assert_eq!(calls[0].count, 2);

    let parsed = json::parse(&g.as_json()).unwrap();
    assert_eq!(parsed["timings"]["A"]["called"].as_usize().unwrap(), 1);
    assert_eq!(parsed["timings"]["B"]["called"].as_usize().unwrap(), 2);
    assert_eq!(parsed["timings"]["A"]["id"].as_usize().unwrap(), 0);
    assert_eq!(parsed["timings"]["B"]["id"].as_usize().unwrap(), 1);
    assert_eq!(parsed["timings"]["A"]["elapsed"].as_str().unwrap(), "10000 µs");
    assert_eq!(parsed["timings"]["B"]["elapsed"].as_str().unwrap(), "4000 µs");
    assert_eq!(parsed["calls"].len(), 1);
    assert_eq!(parsed["calls"][0]["caller"].as_usize().unwrap(), 0);
    assert_eq!(parsed["calls"][0]["callee"].as_usize().unwrap(), 1);
    assert_eq!(parsed["calls"][0]["count"].as_usize().unwrap(), 2);
}

#[test]
fn recursive_span_closed_twice() {
    let mut g = SpanGraph::new();
    // the inner occurrence of span_x closes first, its parent is span_x itself
    record_close(&mut g, "span_x", Some("span_x"), 1_000_000);
    // the outer occurrence closes last, with no parent
    record_close(&mut g, "span_x", None, 1_000_000);
    let spans = g.spans();
    assert_eq!(spans.len(), 1);
    assert_eq!(spans[0].called, 2);
    assert_eq!(spans[0].elapsed, 2_000_000);
    let calls = g.calls();
    assert_eq!(calls.len(), 1);
    assert_eq!(calls[0].caller, calls[0].callee);
    assert_eq!(calls[0].count, 1);
    let table = g.as_table();
    assert_eq!(table.matches("span_x").count(), 1);
}
