[package]
name = "translation_cache"
version = "0.1.0"
edition = "2021"
publish = false

[dependencies]
dotenv = "*"
reqwest = { version = "*", default-features = false, features = ["json", "rustls-tls"] }
serde = { version = "*", features = ["derive"] }
tokio = { version = "*", features = ["rt-multi-thread", "macros"] }
