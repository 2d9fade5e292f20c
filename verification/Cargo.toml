[package]
name = "draft_intake"
version = "0.1.0"
edition = "2021"
publish = false

[dependencies]
uuid = { version = "*", features = ["v4"] }
time = { version = "*", features = ["formatting"] }
mongodb = "*"
bson = "*"
poem = { version = "*", features = ["static-files"] }
serde = { version = "*", features = ["derive"] }
serde_json = "*"
tokio = { version = "*", features = ["macros", "rt-multi-thread"] }
dotenv = "*"
env_logger = "*"
log = "*"
thiserror = "*"
