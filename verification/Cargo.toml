[package]
name = "screencast_bridge"
version = "0.1.0"
edition = "2021"
publish = false

[dependencies]
etherparse = "=0.21.0"
clap = { version = "=4.6.7", features = ["derive"] }
env_logger = "=0.11.11"
log = "=0.4.35"
tokio = { version = "=1.54.1", features = ["full"] }
idevice = { version = "=0.1.68", default-features = false, features = ["ring", "core_device_proxy", "usbmuxd", "tcp"] }
ashpd = { version = "=0.13.13", features = ["screencast"] }
once_cell = "=1.21.4"
