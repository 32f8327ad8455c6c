[package]
name = "lecture_rag"
version = "0.1.0"
edition = "2021"
publish = false

[dependencies]
uuid = { version = "1", features = ["v4"] }
tonic = "*"
qdrant-client = { version = "*", default-features = false }
mongodb = "*"
tokio = { version = "1", features = ["macros", "rt-multi-thread"] }
futures = "*"
serde = { version = "1", features = ["derive"] }
anyhow = "1"
log = "*"
env_logger = "*"
