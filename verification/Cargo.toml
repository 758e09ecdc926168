[package]
name = "device_bringup"
version = "0.1.0"
edition = "2021"
publish = false

[dependencies]
esp-idf-svc = "*"
log = "*"
toml-cfg = "*"
