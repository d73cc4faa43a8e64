[package]
name = "saw_synth"
version = "0.1.0"
edition = "2021"
publish = false

[dependencies]
num = "0.4"
rodio = { version = "0.16", default-features = false }
crossterm = "0.25"
libmath = "*"
