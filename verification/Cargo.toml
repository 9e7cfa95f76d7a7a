[package]
name = "feed_keeper"
version = "0.1.0"
edition = "2021"
publish = false

[dependencies]
alloy = { version = "0.8", default-features = false, features = ["std", "dyn-abi", "json-abi", "network", "providers", "rpc-types", "transports"] }
anyhow = "1"
hex = "0.4"
serde_json = "1"
tracing = "0.1"
