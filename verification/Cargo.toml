[package]
name = "ohllama"
version = "0.1.0"
edition = "2021"
publish = false

[dependencies]
atty = "*"
clap = { version = "*", features = ["derive"] }
ollama-rs = "*"
serde = { version = "*", features = ["derive"] }
tokio = { version = "*", features = ["macros", "rt-multi-thread"] }
toml = "*"
