[package]
name = "dictatr_core"
version = "0.1.9"
edition = "2021"
publish = false

[dependencies]
base64 = "=0.22.1"
hound = "=3.5.1"
uuid = { version = "=1.29.0", features = ["v4", "serde"] }
serde = { version = "=1.0.229", features = ["derive"] }
serde_json = "=1.0.154"
thiserror = "=1.0.69"
directories = "=5.0.1"
parking_lot = "=0.12.5"
tokio = { version = "=1.54.1", features = ["rt-multi-thread", "macros", "sync", "fs", "io-util", "time"] }
reqwest = { version = "=0.12.28", default-features = false, features = ["multipart", "json", "rustls-tls", "stream"] }
async-trait = "=0.1.92"
futures-util = "=0.3.34"
chrono = { version = "=0.4.45", features = ["serde"] }
rusqlite = { version = "=0.31.0", features = ["bundled"] }
keyring = "=3.6.3"
arboard = { version = "=3.7.0", default-features = false }
