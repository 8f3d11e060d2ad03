[package]
name = "stamon"
version = "0.1.0"
edition = "2021"
publish = false

[dependencies]
serde_json = "*"
anyhow = "*"
clap = { version = "*", features = ["derive"] }
libc = "*"
reqwest = { version = "*", default-features = false, features = ["blocking"] }
binance = "*"
chrono = "*"
tracing = "*"
tracing-subscriber = { version = "*", features = ["env-filter"] }
