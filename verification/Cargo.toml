[package]
name = "screenshot_app"
version = "0.1.0"
edition = "2021"
publish = false

[dependencies]
base64 = "*"
chrono = "*"
dirs = "*"
env_logger = "*"
image = { version = "*", default-features = false, features = ["png", "jpeg"] }
log = "*"
xcap = "*"
