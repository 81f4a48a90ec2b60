[package]
name = "furina"
version = "0.1.0"
edition = "2021"
publish = false

[dependencies]
regex = "1"
anyhow = "1"
log = "0.4"
image = { version = "0.24", default-features = false }
tokio = { version = "1", features = ["time", "rt", "macros", "sync"] }
clap = { version = "4", features = ["derive"] }
serde = { version = "1", features = ["derive"] }
serde_json = "1"
rand = "0.8"
