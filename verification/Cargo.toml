[package]
name = "worker_pool"
version = "0.1.0"
edition = "2021"
publish = false

[dependencies]
serde_json = "1"
serde = { version = "1", features = ["derive"] }
tokio = { version = "1", features = ["process", "io-util", "rt-multi-thread", "macros", "sync", "time", "fs"] }
actix-web = { version = "4", default-features = false, features = ["macros"] }
actix-files = "0.6"
anyhow = "1"
flexi_logger = "*"
log = "0.4"
