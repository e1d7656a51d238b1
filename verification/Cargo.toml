[package]
name = "autofill"
version = "0.1.0"
edition = "2021"
publish = false

[dependencies]
serde_json = "1"
url = "2"
serde = { version = "1", features = ["derive"] }
tokio = { version = "1", features = ["sync", "rt", "rt-multi-thread", "fs"] }
reqwest = { version = "0.12", default-features = false, features = ["json", "rustls-tls"] }
