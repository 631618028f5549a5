[package]
name = "mayastor_core"
version = "0.1.0"
edition = "2021"
publish = false

[dependencies]
nix = "=0.31.3"
regex = "=1.13.1"
serde = { version = "=1.0.229", features = ["derive"] }
serde_json = "=1.0.154"
snafu = "=0.8.9"
tokio = { version = "=1.54.1", features = ["process", "time"] }
uuid = "=0.7.4"
