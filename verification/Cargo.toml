[package]
name = "guest_exchange"
version = "0.1.0"
edition = "2021"
publish = false

[dependencies]
wasmer = "=6.1.0"
serde_json = "=1.0.151"
rmp-serde = "=1.3.1"
