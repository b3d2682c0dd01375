[package]
name = "sizefit"
version = "0.1.0"
edition = "2021"
publish = false

[dependencies]
ffmpeg-next = "*"
sha1 = "*"
tokio = { version = "*", default-features = false, features = ["rt", "macros"] }
