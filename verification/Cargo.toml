[package]
name = "mev_bundle"
version = "0.1.0"
edition = "2021"
publish = false

[dependencies]
alloy-consensus = { version = "*", features = ["k256"] }
alloy-primitives = "*"
alloy-rlp = "*"
alloy-rpc-types-eth = "*"
serde = { version = "1", features = ["derive"] }
serde_json = "1"
thiserror = "*"
tokio = { version = "1", features = ["sync", "time", "macros", "rt"] }
tracing = "*"

[dev-dependencies]
hex = "0.4"
