[package]
name = "kitoken_embed"
version = "0.1.0"
edition = "2021"
publish = false

[dependencies]
anyhow = "=1.0.104"
kitoken = "=0.11.0"
rten = "=0.18.0"
rten-tensor = "=0.18.0"

[dev-dependencies]
flatbuffers = "24"
