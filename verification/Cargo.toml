[package]
name = "asus_numpad"
version = "0.1.0"
edition = "2021"
publish = false

[dependencies]
anyhow = "*"
env_logger = "*"
evdev-rs = "*"
i2cdev = "*"
libc = "*"
log = "*"
serde = { version = "*", features = ["derive"] }
toml = "*"
