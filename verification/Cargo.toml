[package]
name = "bilidl"
version = "0.1.0"
edition = "2021"
publish = false

[dependencies]
regex = "1"
rand_agents = "*"
serde = { version = "1", features = ["derive"] }
serde_json = "1"
image = { version = "0.25", default-features = false, features = ["png", "jpeg", "webp", "gif"] }
reqwest = { version = "0.12", default-features = false, features = ["rustls-tls", "stream"] }
tokio = { version = "1", features = ["rt-multi-thread", "macros", "sync"] }
anyhow = "1"
futures-util = "0.3"
notify = "6"
once_cell = "1"
