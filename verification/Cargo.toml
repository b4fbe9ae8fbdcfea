[package]
name = "tower-sessions-rusqlite-store"
version = "0.1.0"
edition = "2021"
publish = false

[dependencies]
async-trait = "*"
rmp-serde = "*"
rusqlite = { version = "*", features = ["bundled"] }
thiserror = "*"
time = "*"
tokio-rusqlite = "*"
tower-sessions-core = { version = "*", features = ["deletion-task"] }
