[package]
name = "uad_core"
version = "0.1.0"
edition = "2021"
publish = false

[dependencies]
log = "0.4"
retry = "2"
serde = { version = "1", features = ["derive"] }
