[package]
name = "middle_screenshot"
version = "0.1.0"
edition = "2021"
publish = false

[dependencies]
anyhow = "1"
clipboard-win = "4"
image = { version = "=0.24.9", default-features = false, features = ["bmp", "tiff"] }
imageproc = { version = "=0.23.1", default-features = false }
leptess = "0.14"
rdev = "=0.5.3"
winit = { version = "0.28", default-features = false, features = ["x11"] }
