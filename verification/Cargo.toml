[package]
name = "wallpaper_extractor"
version = "0.1.0"
edition = "2021"
publish = false

[dependencies]
anyhow = "1"
binary_rw = "*"
image = { version = "0.25", default-features = false, features = ["bmp", "gif", "ico", "jpeg", "png", "tga", "tiff", "webp"] }
lz4_flex = "0.11"
