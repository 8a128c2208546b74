[package]
name = "workflow_executor"
version = "0.1.0"
edition = "2021"
publish = false

[dependencies]
serde_json = "1"
pyo3 = { version = "0.25", features = ["abi3-py39"] }
pyo3-async-runtimes = { version = "0.25", features = ["tokio-runtime"] }
tokio = { version = "1", features = ["rt-multi-thread", "time"] }
tracing = "0.1"
