[package]
name = "vhost_user_devices"
version = "0.1.0"
edition = "2021"
publish = false

[dependencies]
serde = "1"
