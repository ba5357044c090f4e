[package]
name = "midi_looper"
version = "0.1.0"
edition = "2021"
publish = false

[dependencies]
midir = "*"
