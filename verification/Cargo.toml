[package]
name = "r0vm"
version = "0.1.0"
edition = "2021"
publish = false

[dependencies]
failure = "0.1"
line-span = "0.1"
logos = { version = "*", default-features = false }
serde = { version = "1", features = ["derive"] }
text_io = "0.1"
unicode-width = "0.1"
