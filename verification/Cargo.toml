[package]
name = "flatpakify"
version = "0.1.0"
edition = "2021"
publish = false

[dependencies]
anyhow = "*"
clap = { version = "*", features = ["derive"] }
env_logger = "*"
log = "*"
tokio = { version = "*", features = ["macros", "rt-multi-thread", "process", "fs"] }

[dev-dependencies]
serde_yaml = "*"
