[package]
name = "tracing_timing_graph"
version = "0.1.0"
edition = "2021"
publish = false

[dependencies]
petgraph = "*"
term-table = "*"
json = "*"
quanta = "*"
parking_lot = "*"
tracing = "*"
tracing-subscriber = "*"
