[package]
name = "music_jester"
version = "0.1.0"
edition = "2021"
publish = false

[dependencies]
lofty = "=0.18.2"
