[package]
name = "killfeed"
version = "0.1.0"
edition = "2021"
publish = false

[dependencies]
rand = "=0.8.8"
tokio = { version = "=1.53.2", features = ["rt-multi-thread", "macros", "sync", "time"] }
serenity = { version = "=0.11.7", default-features = false, features = ["builder", "cache", "client", "gateway", "http", "model", "utils", "rustls_backend"] }
auraxis = "=0.3.0"
dotenv = "=0.15.0"
serde_json = "1"
reqwest = { version = "=0.11.27", default-features = false, features = ["rustls-tls", "json"] }
