[package]
name = "sandbox"
version = "0.1.0"
edition = "2021"
publish = false

[dependencies]
log = "0.4"
rocket = { version = "0.5", features = ["json"] }
serde = { version = "1", features = ["derive"] }
tempdir = "0.3"
tokio = { version = "1", features = ["process", "time"] }
