[package]
name = "dnsi"
version = "0.1.0"
edition = "2021"
publish = false

[dependencies]
domain = { version = "=0.12.3", features = ["resolv"] }
chrono = "=0.4.45"
clap = { version = "=4.6.7", features = ["derive"] }
tokio = { version = "=1.53.2", features = ["rt-multi-thread", "net", "time"] }
tokio-rustls = { version = "=0.26.6", default-features = false, features = ["logging", "tls12", "ring"] }
webpki-roots = "=1.0.9"
bytes = "=1.12.1"
