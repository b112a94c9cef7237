[package]
name = "fpt"
version = "0.1.0"
edition = "2021"
publish = false

[dependencies]
glob = "*"
tokio = { version = "*", features = ["full"] }
serde = { version = "*", features = ["derive"] }
serde_json = "*"
toml = "*"
tempfile = "*"
