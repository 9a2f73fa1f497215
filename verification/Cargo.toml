[package]
name = "core_audio_types"
version = "0.1.0"
edition = "2021"
publish = false

[dependencies]
libc = "0.2"
objc2 = "=0.5.3"
objc2-foundation = { version = "=0.2.2", features = ["all"] }
dispatch2 = "=0.1.0"
