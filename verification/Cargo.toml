[package]
name = "openai_proxy"
version = "0.1.0"
edition = "2021"
publish = false

[dependencies]
anyhow = "=1.0.104"
async-openai = { version = "=0.42.1", features = ["chat-completion"] }
async-stream = "=0.3.6"
config = "=0.15.27"
futures = "=0.3.34"
jsonwebtoken = { version = "=11.1.0", features = ["rust_crypto"] }
poem = { version = "=3.1.12", features = ["sse"] }
redis = { version = "=1.7.1", features = ["tokio-comp"] }
serde = { version = "=1.0.229", features = ["derive"] }
serde_json = "=1.0.151"
tokio = { version = "=1.53.2", features = ["macros", "rt-multi-thread"] }
