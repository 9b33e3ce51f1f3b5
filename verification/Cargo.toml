[package]
name = "rodio_playback_position"
version = "0.1.3"
edition = "2021"
publish = false

[dependencies]
cpal = "0.16"
rodio = { version = "0.21", default-features = false }
triple_buffer = "8"
