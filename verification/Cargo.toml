[package]
name = "tesselbox_client"
version = "0.1.0"
edition = "2021"
publish = false

[dependencies]
serde_json = "1"
bevy = { version = "0.14", default-features = false }
