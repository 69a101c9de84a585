[package]
name = "bitcoin_handshake"
version = "0.1.0"
edition = "2021"
publish = false

[dependencies]
sha2 = "=0.10.9"
chrono = "=0.4.45"
rand = "=0.8.8"
tokio = { version = "=1.53.2", features = ["net", "io-util", "rt-multi-thread", "sync", "time", "macros"] }
clap = { version = "=4.6.7", features = ["derive", "env"] }
futures = "=0.3.34"
