[package]
name = "sonic_forever_autosplitter"
version = "0.1.0"
edition = "2021"
publish = false

[dependencies]
asr = "*"
