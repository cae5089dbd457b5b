[package]
name = "sticker_media"
version = "0.1.0"
edition = "2021"
publish = false

[dependencies]
anyhow = "=1.0.104"
bytes = "=1.12.1"
image = { version = "=0.25.10", default-features = false, features = ["bmp", "gif", "ico", "jpeg", "png", "rayon", "tga", "tiff", "webp"] }
log = "=0.4.34"
pretty_env_logger = "=0.5.0"
takecell = "=0.1.1"
teloxide = "=0.17.0"
tempfile = "=3.27.0"
tokio = { version = "=1.53.2", features = ["rt-multi-thread", "macros", "process", "fs", "io-util"] }
webp = "=0.3.1"
