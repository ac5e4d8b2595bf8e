[package]
name = "parsec_vdisplay"
version = "0.1.0"
edition = "2021"
publish = false

[dependencies]
anyhow = "1"
dirs = "*"
notify = "*"
serde = { version = "1", features = ["derive"] }
serde_json = "1"
tokio = { version = "1", features = ["sync", "time", "rt", "macros"] }
toml = "*"
tracing = "0.1"
tracing-subscriber = "0.3"
objc2 = "0.6"
objc2-foundation = "0.3"
objc2-app-kit = "0.3"
