[package]
name = "sloppy"
version = "0.1.0"
edition = "2021"
publish = false

[dependencies]
anyhow = "*"
axum = "*"
bitcoin = "*"
chrono = "*"
futures-util = "*"
nostr-sdk = "*"
nwc = "*"
reqwest = { version = "*", default-features = false, features = ["json", "stream", "rustls-tls"] }
serde = { version = "*", features = ["derive"] }
serde_json = "*"
tokio = { version = "*", features = ["macros", "rt-multi-thread", "time", "net"] }
