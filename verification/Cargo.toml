[package]
name = "mqtt_sn_tools_rs"
version = "0.1.0"
edition = "2021"
publish = false

[dependencies]
log = "*"
env_logger = "*"
serial2 = "*"
serialport = { version = "*", default-features = false }
