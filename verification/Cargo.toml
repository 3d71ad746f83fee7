[package]
name = "navidrome-htpc"
version = "0.1.0"
edition = "2021"
publish = false

[dependencies]
opensubsonic = "0.6"
uuid = { version = "1", features = ["v4"] }
dirs = "6"
rand = "0.9"
serde = { version = "1", features = ["derive"] }
serde_json = "1"
toml = "0.8"
tokio = { version = "1", features = ["rt-multi-thread"] }
