[package]
name = "bert_embed"
version = "0.1.0"
edition = "2021"
publish = false

[dependencies]
candle-core = "*"
candle-nn = "*"
candle-transformers = "*"
tokenizers = "*"
serde_json = "*"
serde = { version = "*", features = ["derive"] }

[dev-dependencies]
safetensors = "*"
