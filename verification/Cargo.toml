[package]
name = "ion-channel"
version = "0.1.0"
edition = "2021"
publish = false

[dependencies]
shell-escape = "0.1"
tokio = { version = "1", features = ["rt-multi-thread", "macros", "time", "sync"] }
tracing = "0.1"
tracing-subscriber = "0.3"
serde = { version = "1", features = ["derive"] }
serde_yaml = "0.9"
toml = "0.8"
home = "0.5"
clap = { version = "4", features = ["derive"] }
console = "0.15"

[dev-dependencies]
