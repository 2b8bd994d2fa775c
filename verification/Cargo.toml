[package]
name = "bitwhip"
version = "0.1.0"
edition = "2021"
publish = false

[dependencies]
anyhow = "*"
clap = { version = "*", features = ["derive"] }
log = "*"
simplelog = "*"
tokio = { version = "*", features = ["full"] }
ffmpeg-next = "*"
ffmpeg-sys-next = "*"
sdl2 = "*"
objc2 = "*"
objc2-app-kit = "*"
