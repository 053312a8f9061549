[package]
name = "lila"
version = "0.1.0"
edition = "2021"
publish = false

[dependencies]
serenity = "=0.12.5"
async-openai = { version = "=0.43.0", features = ["chat-completion"] }
serde_json = "=1.0.154"
tokio = { version = "=1.54.1", features = ["macros", "rt-multi-thread"] }
rand = "=0.9.5"
dotenvy = "=0.15.7"
