[package]
name = "tx_relay"
version = "0.1.0"
edition = "2021"
publish = false

[dependencies]
anyhow = "=1.0.104"
bitcoin = "=0.30.3"
clap = { version = "=4.6.7", features = ["derive"] }
nostr = "=0.22.0"
nostr-sdk = "=0.22.0"
reqwest = { version = "=0.11.27", default-features = false, features = ["rustls-tls"] }
tokio = { version = "=1.54.1", features = ["macros", "rt-multi-thread"] }

[dev-dependencies]
hex-string = "=0.1.0"
