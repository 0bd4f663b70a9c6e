[package]
name = "virtual_keyboard"
version = "0.1.0"
edition = "2021"
publish = false

[dependencies]
evdev-rs = { version = "*", features = ["serde"] }
serde_json = "*"
tokio = { version = "*", features = ["net", "rt-multi-thread", "macros"] }
