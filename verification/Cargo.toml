[package]
name = "help_screen"
version = "0.1.0"
edition = "2021"
publish = false

[dependencies]
bevy = { version = "0.8", default-features = false, features = ["render", "bevy_asset", "png"] }
iyes_loopless = "0.7"
