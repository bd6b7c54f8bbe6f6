[package]
name = "asset_gate"
version = "0.1.0"
edition = "2021"
publish = false

[dependencies]
bevy = { version = "0.14", default-features = false, features = ["bevy_asset", "bevy_state", "bevy_color"] }
