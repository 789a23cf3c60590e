[package]
name = "rgame"
version = "0.1.0"
edition = "2021"
publish = false

[dependencies]
rand = "0.8"
syn = "2"
bevy = { version = "0.13", default-features = false }
