[package]
name = "nautilus-oanda"
version = "0.1.0"
edition = "2021"
publish = false

[dependencies]
rust_decimal = "1"
tokio = { version = "1", features = ["rt-multi-thread", "macros", "time", "sync"] }
tokio-util = "0.7"
serde = { version = "1", features = ["derive"] }
serde_json = "1"
chrono = "0.4"
reqwest = { version = "0.12", default-features = false, features = ["rustls-tls"] }
