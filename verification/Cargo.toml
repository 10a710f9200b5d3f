[package]
name = "gamey"
version = "0.1.0"
edition = "2021"
publish = false

[dependencies]
axum = "0.7"
mongodb = "2"
serde = { version = "1", features = ["derive"] }
tokio = { version = "1", features = ["macros", "rt-multi-thread", "net"] }
