[package]
name = "witness_host"
version = "0.1.0"
edition = "2021"
publish = false

[dependencies]
sha2 = "=0.10.9"
tokio = { version = "=1.53.2", features = ["rt", "sync", "macros"] }
anyhow = "=1.0.104"
async-trait = "=0.1.92"
alloy-primitives = "=0.8.26"
kona-preimage = { version = "=0.3.0", features = ["std"] }

[dev-dependencies]
serde_json = "=1.0.151"
