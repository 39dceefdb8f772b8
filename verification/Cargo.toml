[package]
name = "jank_bot"
version = "0.1.0"
edition = "2021"
publish = false

[dependencies]
env_logger = "*"
log = "0.4"
ron = "*"
serde = { version = "1", features = ["derive"] }
serenity = { version = "0.10", features = ["voice"] }
songbird = "0.2"
tokio = { version = "1", features = ["macros", "rt-multi-thread", "signal"] }
