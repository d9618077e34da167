[package]
name = "inferrs"
version = "0.1.0"
edition = "2021"
publish = false

[dependencies]
anyhow = "1"
candle-core = { version = "0.9", default-features = false }
candle-nn = { version = "0.9", default-features = false }
clap = { version = "4", features = ["derive"] }
hf-hub = { version = "0.4", default-features = false, features = ["ureq", "rustls-tls"] }
serde = { version = "1", features = ["derive"] }
serde_json = "1"
tracing = "0.1"
