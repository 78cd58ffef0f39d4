[package]
name = "uad_core"
version = "0.1.0"
edition = "2021"
publish = false

[dependencies]
clap = { version = "*", features = ["derive"] }
serde = { version = "*", features = ["derive"] }
serde_json = "*"
chrono = "*"
csv = "*"
dirs = "*"
retry = "*"
ureq = { version = "*", default-features = false }
