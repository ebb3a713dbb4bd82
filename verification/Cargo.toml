[package]
name = "backlight_toggle"
version = "0.1.0"
edition = "2021"
publish = false

[dependencies]
anyhow = "=1.0.104"
rppal = "=0.17.1"
tokio = { version = "=1.54.1", features = ["macros", "rt-multi-thread", "signal"] }
