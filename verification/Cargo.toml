[package]
name = "paddler"
version = "0.1.0"
edition = "2021"
publish = false

[dependencies]
actix-web = "4"
actix-ws = "0.3"
anyhow = "1"
async-trait = "0.1"
bytes = "1"
cadence = "1"
clap = { version = "4", features = ["derive"] }
dashmap = "6"
env_logger = "0.11"
futures-util = "0.3"
llama-cpp-bindings = "*"
log = "0.4"
nanoid = "0.4"
parking_lot = "0.12"
serde = { version = "1", features = ["derive"] }
serde_json = "1"
tokio = { version = "1", features = ["full"] }
tokio-stream = { version = "0.1", features = ["sync"] }
tokio-tungstenite = "*"
tokio-util = "0.7"
