[package]
name = "sweech"
version = "0.1.0"
edition = "2021"
publish = false

[dependencies]
serde_json = "1"
serde = { version = "1", features = ["derive"] }
toml = "0.8"
anyhow = "1"
async-trait = "0.1"
axum = "0.7"
http = "1"
clap = { version = "4", features = ["derive"] }
colored = "2"
dirs-next = "2"
walkdir = "2"
