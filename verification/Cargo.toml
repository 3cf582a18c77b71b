[package]
name = "played_bot"
version = "0.1.0"
edition = "2021"
publish = false

[dependencies]
lambda_runtime = "*"
serde_json = "*"
tokio = { version = "*", features = ["macros", "rt-multi-thread"] }
