[package]
name = "planar"
version = "0.1.0"
edition = "2021"
publish = false

[dependencies]
async-trait = "0.1"
etcd-client = "*"
futures-lite = "2"
hyper = { version = "0.14", features = ["full"] }
lapin = "2"
serde = { version = "1", features = ["derive"] }
serde_derive = "1"
serde_json = "1"
tokio = { version = "1", features = ["full"] }
tracing = "0.1"
tracing-subscriber = "0.3"
