[package]
name = "pyo3_async_runtimes"
version = "0.27.0"
edition = "2021"
publish = false

[dependencies]
futures-channel = { version = "=0.3.34", features = ["sink"] }
futures-util = { version = "=0.3.34", features = ["sink"] }
pyo3 = "=0.27.2"
tokio = { version = "=1.54.1", features = ["rt", "rt-multi-thread", "sync", "time"] }
async-channel = "=2.5.0"
once_cell = "=1.21.4"
parking_lot = "=0.12.5"
pin-project-lite = "=0.2.17"
