[package]
name = "tier_tracker"
version = "0.1.0"
edition = "2021"
publish = false

[dependencies]
serde_json = "1"
serde = { version = "1", features = ["derive"] }
serenity = { version = "0.11", default-features = false, features = ["builder", "client", "gateway", "http", "model", "utils", "rustls_backend"] }
reqwest = { version = "0.11", default-features = false, features = ["rustls-tls"] }
tokio = { version = "1", features = ["macros", "rt-multi-thread"] }
firestore = "*"
