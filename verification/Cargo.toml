[package]
name = "clip_engine"
version = "0.1.0"
edition = "2021"
publish = false

[dependencies]
md5 = "0.7"
glob = "0.3"
serde = { version = "1", features = ["derive"] }
serde_json = "1"
