[package]
name = "audioshop"
version = "0.1.0"
edition = "2021"
publish = false

[dependencies]
coreaudio-sys = { version = "0.2", default-features = false, features = ["core_audio"] }
