[package]
name = "sensor_models"
version = "0.1.0"
edition = "2021"
publish = false

[dependencies]
base64 = "0.22"
log = "0.4"
rand = "0.8"
sysinfo = { version = "0.30", default-features = false }
