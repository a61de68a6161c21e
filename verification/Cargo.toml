[package]
name = "rust_dispatch"
version = "0.1.0"
edition = "2021"
publish = false

[dependencies]
deadpool = "=0.13.1"
deadpool-redis = "=0.23.1"
tokio = { version = "=1.53.2", features = ["macros", "rt-multi-thread", "time"] }
anyhow = "=1.0.104"
