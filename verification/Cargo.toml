[package]
name = "ollama_controls_api"
version = "0.1.0"
edition = "2021"
publish = false

[dependencies]
age = "0.11"
argon2 = { version = "0.5", features = ["std"] }
axum = "0.8"
base64 = "0.22"
clap = { version = "4", features = ["derive"] }
dirs = "6"
dotenvy = "0.15"
rpassword = "7"
serde = { version = "1", features = ["derive"] }
serde_json = "1"
tokio = { version = "1", features = ["macros", "net", "rt-multi-thread"] }
tower-http = { version = "0.6", features = ["cors"] }

[dev-dependencies]
tempfile = "3"
