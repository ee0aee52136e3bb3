[package]
name = "invoice"
version = "0.1.0"
edition = "2021"
publish = false

[dependencies]
bson = "*"
chrono = "*"
serde = { version = "*", features = ["derive"] }
serde_json = "*"
tokio = { version = "*", features = ["rt-multi-thread", "macros", "net"] }
axum = "*"
mongodb = "*"
reqwest = { version = "*", default-features = false, features = ["json"] }
log = "*"
simple_logger = "*"
