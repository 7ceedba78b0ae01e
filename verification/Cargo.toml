[package]
name = "ftp_photo_frame"
version = "0.1.0"
edition = "2021"
publish = false

[dependencies]
image = "*"
fast_image_resize = { version = "*", features = ["image"] }
ftp = "*"
clap = { version = "*", features = ["derive"] }
sdl2 = "*"
rppal = "*"
