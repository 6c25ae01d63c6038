[package]
name = "uta_studio_desktop"
version = "0.1.0"
edition = "2021"
publish = false

[dependencies]
bevy = { version = "=0.18.1", default-features = false, features = ["bevy_log"] }
tracing-subscriber = { version = "=0.3.23", features = ["env-filter", "fmt"] }
serde = { version = "=1.0.229", features = ["derive"] }
serde_json = "=1.0.154"
