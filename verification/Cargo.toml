[package]
name = "mcpify"
version = "0.1.0"
edition = "2021"
publish = false

[dependencies]
heck = "0.5"
anyhow = "1"
async-trait = "0.1"
serde = { version = "1", features = ["derive"] }
serde_json = "1"
tera = { version = "1", default-features = false }
tokio = { version = "1", features = ["fs", "process", "io-util", "time", "macros", "rt-multi-thread"] }
