[package]
name = "guest_emu"
version = "0.1.0"
edition = "2021"
publish = false

[dependencies]
libc = "0.2"
num-traits = "0.2"
rand = "0.8"
rmp-serde = "1"
serde = { version = "1", features = ["derive"] }
uuid = { version = "1", features = ["v4"] }
walkdir = "2"
