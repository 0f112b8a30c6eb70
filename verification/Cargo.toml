[package]
name = "graphflow_stream"
version = "0.1.0"
edition = "2021"
publish = false

[dependencies]
graph-flow = "*"
tokio = { version = "1", features = ["sync", "rt", "rt-multi-thread", "macros", "time"] }
async-trait = "0.1"
futures-core = "0.3"
tokio-stream = "0.1"
