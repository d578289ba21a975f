[package]
name = "talk_session"
version = "0.1.0"
edition = "2021"
publish = false

[dependencies]
anyhow = "1"
futures = { version = "0.3", default-features = false, features = ["std"] }
headless-talk = { version = "*", default-features = false }
hex = "0.4"
parking_lot = "0.12"
serde = { version = "1", features = ["derive"] }
sha2 = "0.10"
talk-loco-client = { version = "*", default-features = false }
tokio = { version = "1", features = ["sync", "fs", "rt"] }
