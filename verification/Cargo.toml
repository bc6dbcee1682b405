[package]
name = "mosquitto-rs"
version = "0.1.0"
edition = "2021"
publish = false

[dependencies]
async-channel = "2"
log = "0.4"
