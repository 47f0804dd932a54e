[package]
name = "oaytmd"
version = "0.1.0"
edition = "2021"
publish = false

[dependencies]
arc-swap = "1"
futures-util = "0.3"
log = "0.4"
openaction = "*"
reqwest = { version = "0.12", default-features = false, features = ["json"] }
rust_socketio = { version = "*", features = ["async"] }
serde = { version = "1", features = ["derive"] }
serde_json = "1"
serde_repr = "0.1"
simplelog = "*"
thiserror = "*"
tokio = { version = "1", features = ["full"] }
