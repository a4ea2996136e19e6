[package]
name = "confboot"
version = "0.1.0"
edition = "2021"
publish = false

[dependencies]
serde_json = "*"
serde = { version = "*", features = ["derive"] }
serde_path_to_error = "*"
clap = { version = "*", features = ["derive"] }
dotenvy = "*"
eyre = "*"
color-eyre = "*"
log-panics = "*"
tracing = "*"
tracing-appender = "*"
tracing-subscriber = { version = "*", features = ["env-filter"] }
console-subscriber = "*"
