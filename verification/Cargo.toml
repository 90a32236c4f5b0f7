[package]
name = "self_limiters"
version = "0.1.0"
edition = "2021"
publish = false

[dependencies]
bb8-redis = "0.12"
log = "0.4"
pyo3 = { version = "0.17", features = ["abi3-py37"] }
pyo3-asyncio = { version = "0.17", features = ["tokio-runtime"] }
redis = { version = "0.22", default-features = false, features = ["aio", "tokio-comp", "script"] }
tokio = { version = "1", features = ["time"] }
