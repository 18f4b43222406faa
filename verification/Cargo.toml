[package]
name = "komodo_dpow"
version = "0.1.0"
edition = "2021"
publish = false

[dependencies]
hex = "0.4"
secp256k1 = "0.21"
lazy_static = "1.4"
thiserror = "1.0"
tokio = { version = "1", features = ["rt", "sync"] }
tracing = "0.1"
