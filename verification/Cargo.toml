[package]
name = "sapiens"
version = "0.1.0"
edition = "2021"
publish = false

[dependencies]
serde = { version = "=1.0.229", features = ["derive"] }
serde_yaml = "=0.9.34"
serde_json = "=1.0.154"
tiktoken-rs = "=0.12.1"
pulldown-cmark = "=0.10.3"
pulldown-cmark-to-cmark = "=13.0.0"
async-openai = { version = "=0.43.0", features = ["chat-completion"] }
tokio = { version = "=1.54.1", features = ["full"] }
clap = { version = "=4.6.7", features = ["derive"] }
dotenvy = "=0.15.7"
rand = "=0.10.3"
colored = "*"
