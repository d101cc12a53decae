[package]
name = "surrealengine_accelerator"
version = "0.1.0"
edition = "2021"
publish = false

[dependencies]
cbor4ii = { version = "=0.3.3", features = ["use_std"] }
serde = "=1.0.229"
serde_arrow = { version = "=0.15.1", features = ["arrow-60"] }
arrow = { version = "=60.0.0", features = ["pyarrow"] }
pyo3 = "*"
