[package]
name = "audio_emitter"
version = "0.1.0"
edition = "2021"
publish = false

[dependencies]
rodio = { version = "*", default-features = false, features = ["wav"] }
