[package]
name = "local-coding-agent"
version = "0.1.0"
edition = "2021"
publish = false

[dependencies]
serde_json = "=1.0.154"
harness-rs-core = "=0.0.59"
harness-rs-loop = "=0.0.59"
harness-rs-models = "=0.0.59"
harness-rs-tools-fs = "=0.0.59"
harness-rs-context = "=0.0.59"
harness-rs-mcp = "=0.0.59"
tokio = { version = "=1.54.1", features = ["macros", "rt-multi-thread"] }
clap = { version = "=4.6.7", features = ["derive"] }
anyhow = "=1.0.104"
async-trait = "=0.1.92"
futures = "=0.3.34"
