[package]
name = "fxbridge"
version = "0.1.0"
edition = "2021"
publish = false

[dependencies]
anyhow = "*"
clap = { version = "*", features = ["derive"] }
linkify = "=0.11.0"
matrix-sdk = { version = "=0.18.0", default-features = false, features = ["sqlite"] }
mimalloc = "*"
mime = "*"
rand = "*"
reqwest = { version = "*", default-features = false }
rusqlite = { version = "*", features = ["bundled"] }
serde = { version = "*", features = ["derive"] }
serde_json = "*"
signals-but-a-little-nicer = "*"
tokio = { version = "*", features = ["full"] }
url = "=2.5.8"
