[package]
name = "rijq"
version = "0.1.0"
edition = "2021"
publish = false

[dependencies]
rand = "*"
ricq = "*"
tokio = { version = "*", features = ["rt-multi-thread", "time", "fs", "net", "macros", "sync"] }
reqwest = { version = "*", default-features = false }
anyhow = "*"
bytes = "*"
qr2term = "*"
image = "*"
rqrr = "*"
serde_json = "*"
