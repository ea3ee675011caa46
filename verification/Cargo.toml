[package]
name = "icy_ui"
version = "0.1.0"
edition = "2021"
publish = false

[dependencies]
accesskit = "*"
ron = "*"
serde = { version = "*", features = ["derive"] }
