[package]
name = "ff1_autosplitter"
version = "0.1.0"
edition = "2021"
publish = false

[dependencies]
ahash = "*"
asr = "*"
bytemuck = "*"
num_enum = "*"
