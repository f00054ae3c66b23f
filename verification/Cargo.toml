[package]
name = "quic_tun"
version = "0.1.0"
edition = "2021"
publish = false

[dependencies]
anyhow = "1"
clap = { version = "4", features = ["derive"] }
quinn = "=0.11.12"
rcgen = "=0.13.2"
rustls = { version = "=0.23.45", default-features = false, features = ["ring", "std", "logging", "tls12"] }
rustls-native-certs = "=0.8.4"
tokio = { version = "1", features = ["rt-multi-thread", "net", "io-util", "macros", "time"] }
tracing = "0.1"
