[package]
name = "chip8"
version = "0.1.0"
edition = "2021"
publish = false

[dependencies]
arrayvec = "0.7"
bitvec = "1"
rand = "0.9"
log = "0.4"
clap = { version = "4", features = ["derive"] }
fern = { version = "0.7", features = ["colored"] }
winit = { version = "0.30", default-features = false }
