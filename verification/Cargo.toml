[package]
name = "kyward_ui"
version = "0.1.0"
edition = "2021"
publish = false

[dependencies]
anyhow = "1"
serde = { version = "1", features = ["derive"] }
serde_json = "1"
ybc = "0.2"
yew = "0.18"
