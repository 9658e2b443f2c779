[package]
name = "smtp2larkapi"
version = "0.1.0"
edition = "2021"
publish = false

[dependencies]
anyhow = "=1.0.104"
base64 = "=0.22.1"
chrono = "=0.4.45"
mail-parser = "=0.10.2"
reqwest = { version = "=0.12.28", default-features = false, features = ["rustls-tls"] }
rustls = { version = "=0.23.46", default-features = false, features = ["ring", "std", "tls12", "logging"] }
serde = { version = "=1.0.229", features = ["derive"] }
serde_json = "=1.0.154"
tokio = { version = "=1.54.1", features = ["full"] }
tokio-rustls = { version = "=0.26.6", default-features = false, features = ["ring", "tls12", "logging"] }
