[package]
name = "taos_core"
version = "0.1.0"
edition = "2021"
publish = false

[dependencies]
bytes = "1"
serde = "1"
tokio = { version = "1", features = ["io-util"] }
async-trait = "0.1"
