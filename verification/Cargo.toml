[package]
name = "autosplitters"
version = "0.1.0"
edition = "2021"
publish = false

[dependencies]
asr = "0.0.1"
bytemuck = { version = "1.25.2", features = ["derive"] }
once_cell = "1.21.4"
