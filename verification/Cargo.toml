[package]
name = "image_normalizer"
version = "0.1.0"
edition = "2021"
publish = false

[dependencies]
image = { version = "0.25", default-features = false, features = ["jpeg", "png", "gif", "bmp", "webp", "tiff"] }
md5 = "0.7"
chrono = "0.4"
dirs = "*"
machine-uid = "*"
serde = { version = "1", features = ["derive"] }
serde_json = "1"
