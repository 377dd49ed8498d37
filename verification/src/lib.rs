//! Aggregated timing data for named execution spans.
//!
//! All span occurrences sharing the same full name are grouped into one node
//! of a directed call graph; nodes carry cumulative elapsed time and call
//! counts, edges carry how often one name directly enclosed another.

pub mod export;
pub mod graph;
pub mod laws;
pub mod lifecycle;
mod pgraph;

pub use graph::{Calls, SpanGraph, SpanIndex, SpanTiming};
pub use lifecycle::{full_name, record_close, SpanTimingExtension};
