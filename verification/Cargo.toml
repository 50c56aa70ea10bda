[package]
name = "tinyrelay"
version = "0.1.0"
edition = "2021"
publish = false

[dependencies]
mime = "0.3"
axum = "0.7"
tokio = { version = "1", features = ["macros", "rt-multi-thread", "net"] }
reqwest = { version = "0.12", default-features = false }
