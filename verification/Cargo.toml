[package]
name = "baal"
version = "0.1.0"
edition = "2021"
publish = false

[dependencies]
portaudio = "0.7"
rustc-serialize = "0.3"
rodio = { version = "*", default-features = false }
