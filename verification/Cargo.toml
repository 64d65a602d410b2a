[package]
name = "gpui_mono"
version = "0.2.0"
edition = "2021"
publish = false

[dev-dependencies]
serde_json = "1"
