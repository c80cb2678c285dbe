[package]
name = "biliup_app"
version = "0.1.0"
edition = "2021"
publish = false

[dependencies]
anyhow = "=1.0.104"
biliup = "=0.1.11"
bytes = "=1.12.1"
dirs = "=7.0.0"
futures = "=0.3.34"
indexmap = "=2.14.2"
reqwest = "=0.11.27"
serde = { version = "=1.0.229", features = ["derive"] }
serde_json = "=1.0.151"
serde_yaml = "=0.9.34"
tokio = { version = "=1.53.2", features = ["rt-multi-thread", "macros", "time", "sync", "fs"] }
