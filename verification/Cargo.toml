[package]
name = "artifact_cache"
version = "0.1.0"
edition = "2021"
publish = false

[dependencies]
cachedir = "0.3"
fs-err = "2"
nanoid = "0.4"
pubgrub = "*"
rmp-serde = "1"
rustc-hash = "1.1.0"
serde = { version = "1", features = ["derive"] }
tempfile = "3"
tokio = { version = "1", features = ["sync"] }
tracing = "0.1"
walkdir = "2"
