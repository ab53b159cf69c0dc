[package]
name = "agent_pipeline"
version = "0.1.0"
edition = "2021"
publish = false

[dependencies]
serde_json = "=1.0.154"
serde = { version = "=1.0.229", features = ["derive"] }
async-openai = { version = "=0.42.2", features = ["chat-completion"] }
axum = { version = "=0.8.9", features = ["macros"] }
reqwest = { version = "=0.13.5", features = ["json"] }
shuttle-axum = "=0.57.0"
shuttle-runtime = "=0.57.0"
