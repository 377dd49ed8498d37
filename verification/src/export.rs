//! Read-only export forms of the span graph: graphviz dot text, a summary
//! table, and structured JSON data.
//!
//! The content of every row and record is computed by verified functions
//! with exact contracts; only the final textual rendering is delegated to
//! the outside crates.

use vstd::prelude::*;

use crate::graph::{EdgeRec, NodeRec, SpanGraph, SpanIndex, SpanTiming};
use json::JsonValue;
use term_table::row::Row;
use term_table::table_cell::{Alignment, TableCell};

verus! {

/// The decimal digit character for `d` below ten.
pub open spec fn dec_digit(d: nat) -> char {
    if d == 0 {
        '0'
    } else if d == 1 {
        '1'
    } else if d == 2 {
        '2'
    } else if d == 3 {
        '3'
    } else if d == 4 {
        '4'
    } else if d == 5 {
        '5'
    } else if d == 6 {
        '6'
    } else if d == 7 {
        '7'
    } else if d == 8 {
        '8'
    } else {
        '9'
    }
}

/// The decimal notation of `n`: most significant digit first, no sign, no
/// padding.
pub open spec fn dec_str(n: nat) -> Seq<char>
    decreases n,
{
    if n < 10 {
        seq![dec_digit(n)]
    } else {
        dec_str(n / 10).push(dec_digit(n % 10))
    }
}

/// Relies on the std `Display` implementation for `u64`: the decimal
/// digits of the value, most significant first, with no sign and no
/// padding.
#[verifier::external_body]
fn u64_to_dec(x: u64) -> (r: String)
    ensures
        r@ == dec_str(x as nat),
{
    x.to_string()
}

/// The decimal notation of a `usize` value.
fn usize_to_dec(x: usize) -> (r: String)
    ensures
        r@ == dec_str(x as nat),
{
    u64_to_dec(x as u64)
}

/// An integer part, two fractional digits, and a unit suffix.
pub open spec fn dec2(ip: nat, fr: nat, unit: Seq<char>) -> Seq<char> {
    dec_str(ip) + "."@ + (if fr < 10 {
        "0"@ + dec_str(fr)
    } else {
        dec_str(fr)
    }) + unit
}

/// A nanosecond count rendered human-readably: the largest fitting unit
/// among s, ms, µs and ns, with two (truncated) fractional digits.
pub open spec fn spec_fmt_duration(n: nat) -> Seq<char> {
    if n >= 1_000_000_000 {
        dec2(n / 1_000_000_000, (n % 1_000_000_000) * 100 / 1_000_000_000, "s"@)
    } else if n >= 1_000_000 {
        dec2(n / 1_000_000, (n % 1_000_000) * 100 / 1_000_000, "ms"@)
    } else if n >= 1_000 {
        dec2(n / 1_000, (n % 1_000) * 100 / 1_000, "µs"@)
    } else {
        dec2(n, 0, "ns"@)
    }
}

/// Format `ns / div` with two truncated fractional digits and a unit.
fn build_dur(ns: u64, div: u64, unit: &str) -> (r: String)
    requires
        1 <= div <= 1_000_000_000,
    ensures
        r@ == dec2(
            (ns as nat) / (div as nat),
            ((ns as nat) % (div as nat)) * 100 / (div as nat),
            unit@,
        ),
{
    let ip: u64 = ns / div;
    let rem: u64 = ns % div;
    let fr: u64 = rem * 100 / div;
    let mut out = u64_to_dec(ip);
    out.append(".");
    if fr < 10 {
        out.append("0");
    }
    let fd = u64_to_dec(fr);
    out.append(fd.as_str());
    out.append(unit);
    proof {
        assert(out@ =~= dec2(
            (ns as nat) / (div as nat),
            ((ns as nat) % (div as nat)) * 100 / (div as nat),
            unit@,
        ));
    }
    out
}

/// Render a nanosecond count with the largest fitting unit and two
/// fractional digits.
pub fn fmt_duration(ns: u64) -> (r: String)
    ensures
        r@ == spec_fmt_duration(ns as nat),
{
    if ns >= 1_000_000_000 {
        build_dur(ns, 1_000_000_000, "s")
    } else if ns >= 1_000_000 {
        build_dur(ns, 1_000_000, "ms")
    } else if ns >= 1_000 {
        build_dur(ns, 1_000, "µs")
    } else {
        build_dur(ns, 1, "ns")
    }
}

/// The node positions that call into node `t`, in edge storage order.
pub open spec fn callers_of(es: Seq<EdgeRec>, t: nat) -> Seq<nat>
    decreases es.len(),
{
    if es.len() == 0 {
        Seq::empty()
    } else if es[0].1 == t {
        seq![es[0].0] + callers_of(es.drop_first(), t)
    } else {
        callers_of(es.drop_first(), t)
    }
}

/// Caller ids joined by commas.
pub open spec fn join_ids(cs: Seq<nat>) -> Seq<char>
    decreases cs.len(),
{
    if cs.len() == 0 {
        Seq::empty()
    } else if cs.len() == 1 {
        dec_str(cs[0])
    } else {
        join_ids(cs.drop_last()) + ", "@ + dec_str(cs.last())
    }
}

/// The "called by" column: the joined caller ids, or a placeholder when
/// nothing calls the node.
pub open spec fn called_by_text(cs: Seq<nat>) -> Seq<char> {
    if cs.len() == 0 {
        "—"@
    } else {
        join_ids(cs)
    }
}

/// The five table columns of the node at `i`: id, name, call count, the
/// ids calling it, and its elapsed time.
pub open spec fn row_of(ns: Seq<NodeRec>, es: Seq<EdgeRec>, i: int) -> Seq<Seq<char>> {
    seq![
        dec_str(ns[i].0),
        ns[i].1,
        dec_str(ns[i].3),
        called_by_text(callers_of(es, i as nat)),
        spec_fmt_duration(ns[i].2),
    ]
}

/// The character sequences of a row of strings.
pub open spec fn row_view(v: Vec<String>) -> Seq<Seq<char>> {
    v@.map_values(|s: String| s@)
}

/// The one-line description of a node: name, elapsed time, call count.
pub open spec fn spec_node_label(t: NodeRec) -> Seq<char> {
    t.1 + " ran for "@ + spec_fmt_duration(t.2) + ", called "@ + dec_str(t.3) + " times"@
}

/// The JSON elapsed field: whole microseconds.
pub open spec fn spec_micros_text(e: nat) -> Seq<char> {
    dec_str(e / 1000) + " µs"@
}

/// Render a node's one-line description.
pub(crate) fn node_label(t: &SpanTiming) -> (r: String)
    ensures
        r@ == spec_node_label(t.rec()),
{
    let mut out = t.name.clone();
    out.append(" ran for ");
    let d = fmt_duration(t.elapsed);
    out.append(d.as_str());
    out.append(", called ");
    let c = usize_to_dec(t.called);
    out.append(c.as_str());
    out.append(" times");
    proof {
        assert(out@ =~= spec_node_label(t.rec()));
    }
    out
}

impl SpanTiming {
    /// A one-line human-readable description of this node.
    pub fn to_text(&self) -> (r: String)
        ensures
            r@ == spec_node_label(self.rec()),
    {
        node_label(self)
    }
}

/// Join caller ids with commas, or yield the placeholder when there are
/// none.
fn join_callers(cs: &Vec<usize>) -> (r: String)
    ensures
        r@ == called_by_text(cs@.map_values(|x: usize| x as nat)),
{
    let ghost mapped = cs@.map_values(|x: usize| x as nat);
    if cs.len() == 0 {
        return "—".to_owned();
    }
    let mut out = usize_to_dec(cs[0]);
    proof {
        assert(mapped.take(1) =~= seq![mapped[0]]);
    }
    let mut j: usize = 1;
    while j < cs.len()
        invariant
            1 <= j <= cs.len(),
            mapped == cs@.map_values(|x: usize| x as nat),
            mapped.len() == cs@.len(),
            out@ == join_ids(mapped.take(j as int)),
        decreases cs.len() - j,
    {
        out.append(", ");
        let d = usize_to_dec(cs[j]);
        out.append(d.as_str());
        proof {
            let t1 = mapped.take(j + 1);
            assert(t1.drop_last() =~= mapped.take(j as int));
            assert(t1.last() == mapped[j as int]);
            assert(out@ =~= join_ids(t1));
        }
        j = j + 1;
    }
    proof {
        assert(mapped.take(cs@.len() as int) =~= mapped);
    }
    out
}

/// The character sequences of a list of rows of strings.
pub open spec fn rows_view(rs: Seq<Vec<String>>) -> Seq<Seq<Seq<char>>> {
    rs.map_values(|row: Vec<String>| row_view(row))
}

/// The text that the table renderer produces from a header row and a list
/// of rows. The rendering is deterministic, so the text is a function of
/// the cell contents.
pub uninterp spec fn rendered_table(header: Seq<Seq<char>>, rows: Seq<Seq<Seq<char>>>) -> Seq<char>;

/// The table's header row.
pub open spec fn table_header() -> Seq<Seq<char>> {
    seq![
        "id"@,
        "span name                                   "@,
        "call count"@,
        "called by"@,
        "duration"@,
    ]
}

/// The table rows of the nodes listed by `order`, one per entry.
pub open spec fn rows_texts(ns: Seq<NodeRec>, es: Seq<EdgeRec>, order: Seq<usize>) -> Seq<
    Seq<Seq<char>>,
> {
    Seq::new(order.len(), |k: int| row_of(ns, es, order[k] as int))
}

/// Relies on `term_table::Table`: renders one header row and one row per
/// entry of `rows` as a five-column text table, numeric columns aligned
/// right.
#[verifier::external_body]
fn render_table(header: &Vec<String>, rows: &Vec<Vec<String>>) -> (r: String)
    ensures
        r@ == rendered_table(row_view(*header), rows_view(rows@)),
{
    let mut table = term_table::Table::new();
    table.style = term_table::TableStyle::extended();
    table.add_row(Row::new(header.iter().map(TableCell::new)));
    for row in rows {
        table.add_row(Row::new(row.iter().enumerate().map(|(c, text)| match c {
            1 => TableCell::new(text),
            _ => TableCell::new_with_alignment(text, 1, Alignment::Right),
        })));
    }
    table.render()
}

/// The span records of a JSON export, as the specifications see them:
/// name, id, elapsed text, call count.
pub open spec fn span_recs_view(v: Seq<(String, usize, String, usize)>) -> Seq<
    (Seq<char>, nat, Seq<char>, nat),
> {
    v.map_values(|t: (String, usize, String, usize)| (t.0@, t.1 as nat, t.2@, t.3 as nat))
}

/// The call records of a JSON export, as the specifications see them.
pub open spec fn calls_view(v: Seq<(usize, usize, usize)>) -> Seq<EdgeRec> {
    v.map_values(|t: (usize, usize, usize)| (t.0 as nat, t.1 as nat, t.2 as nat))
}

/// The JSON span records of a node sequence: name, id, elapsed text in
/// whole microseconds, and call count, one per node in creation order.
pub open spec fn json_span_recs(ns: Seq<NodeRec>) -> Seq<(Seq<char>, nat, Seq<char>, nat)> {
    Seq::new(ns.len(), |i: int| (ns[i].1, ns[i].0, spec_micros_text(ns[i].2), ns[i].3))
}

/// The text of the JSON object `{ "timings": { name: { id, elapsed,
/// called } }, "calls": [ { caller, callee, count } ] }` built from the
/// given records. The assembly and rendering are deterministic, so the
/// text is a function of the two record sequences.
pub uninterp spec fn json_text_of(
    spans: Seq<(Seq<char>, nat, Seq<char>, nat)>,
    calls: Seq<EdgeRec>,
) -> Seq<char>;

/// Relies on `json::JsonValue` (`new_object`, `new_array`, the `IndexMut`
/// member assignment, `push` on the freshly made array, where it cannot
/// fail) and `json::stringify`: assembles the timings object and the call
/// list from the given records and renders them.
#[verifier::external_body]
fn render_json(spans: &Vec<(String, usize, String, usize)>, calls: &Vec<(usize, usize, usize)>) -> (r:
    String)
    ensures
        r@ == json_text_of(span_recs_view(spans@), calls_view(calls@)),
{
    let mut ts = JsonValue::new_object();
    for t in spans {
        let mut e = JsonValue::new_object();
        e["id"] = t.1.into(); e["elapsed"] = t.2.as_str().into(); e["called"] = t.3.into();
        ts[t.0.as_str()] = e;
    }
    let mut cs = JsonValue::new_array();
    for c in calls {
        let mut e = JsonValue::new_object();
        e["caller"] = c.0.into(); e["callee"] = c.1.into(); e["count"] = c.2.into();
        cs.push(e).unwrap();
    }
    let mut root = JsonValue::new_object();
    root["timings"] = ts; root["calls"] = cs;
    json::stringify(root)
}

impl SpanGraph {
    /// The node positions calling into node `t`, in edge storage order.
    fn caller_ids(&self, t: usize) -> (r: Vec<usize>)
        requires
            self.wf(),
        ensures
            r@.map_values(|x: usize| x as nat) == callers_of(self.edges(), t as nat),
    {
        let cs = self.calls();
        let mut out: Vec<usize> = Vec::new();
        let mut k: usize = 0;
        proof {
            let f = |x: usize| x as nat;
            assert(out@.map_values(f) =~= Seq::<nat>::empty());
            assert(self.edges().skip(0) =~= self.edges());
            assert(out@.map_values(f) + callers_of(self.edges().skip(0), t as nat) =~= callers_of(
                self.edges(),
                t as nat,
            ));
        }
        while k < cs.len()
            invariant
                k <= cs.len(),
                cs@.len() == self.edges().len(),
                forall|j: int|
                    0 <= j < cs@.len() ==> ((#[trigger] cs@[j]).caller.0 as nat,
                        cs@[j].callee.0 as nat, cs@[j].count as nat) == self.edges()[j],
                callers_of(self.edges(), t as nat) == out@.map_values(|x: usize| x as nat)
                    + callers_of(self.edges().skip(k as int), t as nat),
            decreases cs.len() - k,
        {
            proof {
                let es = self.edges();
                assert(es.skip(k as int)[0] == es[k as int]);
                assert(es.skip(k as int).drop_first() =~= es.skip(k as int + 1));
            }
            if cs[k].callee.0 == t {
                let c = cs[k].caller.0;
                out.push(c);
                proof {
                    let f = |x: usize| x as nat;
                    assert(out@.map_values(f) =~= out@.map_values(f).drop_last().push(c as nat));
                    assert(out@.map_values(f).drop_last() + (seq![c as nat] + callers_of(
                        self.edges().skip(k as int + 1),
                        t as nat,
                    )) =~= out@.map_values(f) + callers_of(
                        self.edges().skip(k as int + 1),
                        t as nat,
                    ));
                }
            }
            k = k + 1;
        }
        proof {
            assert(self.edges().skip(self.edges().len() as int) =~= Seq::<EdgeRec>::empty());
        }
        out
    }

    /// Build the table row of the node at position `i`.
    fn render_row(&self, i: usize) -> (row: Vec<String>)
        requires
            self.wf(),
            i < self.nodes().len(),
        ensures
            row_view(row) == row_of(self.nodes(), self.edges(), i as int),
    {
        let node = self.span(SpanIndex(i));
        let id_text = usize_to_dec(node.id);
        let name_text = node.name.clone();
        let called_text = usize_to_dec(node.called);
        let cv = self.caller_ids(i);
        let by_text = join_callers(&cv);
        let dur_text = fmt_duration(node.elapsed);
        let mut row: Vec<String> = Vec::new();
        row.push(id_text);
        row.push(name_text);
        row.push(called_text);
        row.push(by_text);
        row.push(dur_text);
        proof {
            assert(row_view(row) =~= row_of(self.nodes(), self.edges(), i as int));
        }
        row
    }

    /// Build one table row per entry of `order`, each describing the node
    /// at that position.
    pub fn rows_for(&self, order: &Vec<usize>) -> (r: Vec<Vec<String>>)
        requires
            self.wf(),
            forall|k: int| 0 <= k < order@.len() ==> (#[trigger] order@[k]) < self.nodes().len(),
        ensures
            r@.len() == order@.len(),
            forall|k: int|
                0 <= k < r@.len() ==> row_view(#[trigger] r@[k]) == row_of(
                    self.nodes(),
                    self.edges(),
                    order@[k] as int,
                ),
    {
        let mut out: Vec<Vec<String>> = Vec::new();
        let mut k: usize = 0;
        while k < order.len()
            invariant
                self.wf(),
                k <= order@.len(),
                forall|j: int| 0 <= j < order@.len() ==> (#[trigger] order@[j]) < self.nodes().len(),
                out@.len() == k,
                forall|j: int|
                    0 <= j < k ==> row_view(#[trigger] out@[j]) == row_of(
                        self.nodes(),
                        self.edges(),
                        order@[j] as int,
                    ),
            decreases order.len() - k,
        {
            let row = self.render_row(order[k]);
            out.push(row);
            k = k + 1;
        }
        out
    }

    /// Get a per-span summary table of this graph, one row per node, rows
    /// ordered by condensed strongly connected components in reverse
    /// topological order (see [`SpanGraph::scc_order`] and
    /// [`SpanGraph::rows_for`], which carry the contracts on the table's
    /// content); the exact rendered text is not a stable interface.
    pub fn as_table(&self) -> (r: String)
        requires
            self.wf(),
        ensures
            r@ == rendered_table(
                table_header(),
                rows_texts(self.nodes(), self.edges(), self.order()),
            ),
    {
        let order = self.scc_order();
        let rows = self.rows_for(&order);
        let mut header: Vec<String> = Vec::new();
        header.push("id".to_owned());
        // pad "span name" to make the table look nicer with short names
        header.push("span name                                   ".to_owned());
        header.push("call count".to_owned());
        header.push("called by".to_owned());
        header.push("duration".to_owned());
        proof {
            assert(row_view(header) =~= table_header());
            assert(rows_view(rows@) =~= rows_texts(self.nodes(), self.edges(), self.order()));
        }
        render_table(&header, &rows)
    }

    /// The JSON span records: one per node, in creation order, each with
    /// the node's name, id, elapsed time in whole microseconds, and call
    /// count.
    pub fn json_spans(&self) -> (r: Vec<(String, usize, String, usize)>)
        requires
            self.wf(),
        ensures
            r@.len() == self.nodes().len(),
            forall|i: int|
                0 <= i < r@.len() ==> (#[trigger] r@[i]).0@ == self.nodes()[i].1 && r@[i].1 as nat
                    == self.nodes()[i].0 && r@[i].2@ == spec_micros_text(self.nodes()[i].2)
                    && r@[i].3 as nat == self.nodes()[i].3,
    {
        let n = self.count_nodes();
        let mut out: Vec<(String, usize, String, usize)> = Vec::new();
        let mut i: usize = 0;
        while i < n
            invariant
                self.wf(),
                n == self.nodes().len(),
                i <= n,
                out@.len() == i,
                forall|j: int|
                    0 <= j < i ==> (#[trigger] out@[j]).0@ == self.nodes()[j].1 && out@[j].1 as nat
                        == self.nodes()[j].0 && out@[j].2@ == spec_micros_text(self.nodes()[j].2)
                        && out@[j].3 as nat == self.nodes()[j].3,
            decreases n - i,
        {
            let node = self.span(SpanIndex(i));
            let mut elapsed_text = u64_to_dec(node.elapsed / 1000);
            elapsed_text.append(" µs");
            out.push((node.name.clone(), node.id, elapsed_text, node.called));
            i = i + 1;
        }
        out
    }

    /// The JSON call records: one per edge, in creation order, each with
    /// the caller's node id, the callee's node id, and the call count.
    pub fn json_calls(&self) -> (r: Vec<(usize, usize, usize)>)
        requires
            self.wf(),
        ensures
            r@.len() == self.edges().len(),
            forall|k: int|
                0 <= k < r@.len() ==> ((#[trigger] r@[k]).0 as nat, r@[k].1 as nat, r@[k].2 as nat)
                    == self.edges()[k],
    {
        let cs = self.calls();
        let mut out: Vec<(usize, usize, usize)> = Vec::new();
        let mut k: usize = 0;
        while k < cs.len()
            invariant
                k <= cs.len(),
                cs@.len() == self.edges().len(),
                forall|j: int|
                    0 <= j < cs@.len() ==> ((#[trigger] cs@[j]).caller.0 as nat,
                        cs@[j].callee.0 as nat, cs@[j].count as nat) == self.edges()[j],
                out@.len() == k,
                forall|j: int|
                    0 <= j < k ==> ((#[trigger] out@[j]).0 as nat, out@[j].1 as nat,
                        out@[j].2 as nat) == self.edges()[j],
            decreases cs.len() - k,
        {
            let c = &cs[k];
            out.push((c.caller.0, c.callee.0, c.count));
            k = k + 1;
        }
        out
    }

    /// Get all the data in this graph as JSON text: the object built from
    /// exactly the records of [`SpanGraph::json_spans`] and
    /// [`SpanGraph::json_calls`]; the exact rendered text is not a stable
    /// interface.
    pub fn as_json(&self) -> (r: String)
        requires
            self.wf(),
        ensures
            r@ == json_text_of(json_span_recs(self.nodes()), self.edges()),
    {
        let spans = self.json_spans();
        let calls = self.json_calls();
        proof {
            assert(span_recs_view(spans@) =~= json_span_recs(self.nodes()));
            assert(calls_view(calls@) =~= self.edges());
        }
        render_json(&spans, &calls)
    }

    /// Get the full graph in graphviz dot format: every node, labelled as
    /// [`spec_node_label`] says, and every weighted edge; the exact
    /// rendered text is not a stable interface.
    pub fn as_dot(&self) -> (r: String)
        ensures
            r@ == crate::pgraph::dot_text_of(self.nodes(), self.edges()),
    {
        self.dot_raw()
    }
}

} // verus!
