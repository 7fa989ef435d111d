[package]
name = "totaldim"
version = "0.1.0"
edition = "2021"
publish = false

[dependencies]
global-hotkey = "*"
tracing = "*"
tracing-subscriber = { version = "*", features = ["env-filter"] }
tray-icon = "*"
winit = "0.29"

[dev-dependencies]
rosc = "*"
