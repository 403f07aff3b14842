[package]
name = "openmixture"
version = "0.1.0"
edition = "2021"
publish = false

[dependencies]
iced = { version = "=0.14.0", default-features = false, features = ["image", "tiny-skia", "x11", "thread-pool"] }
ffmpeg-next = "=8.1.0"
iced_font_awesome = { version = "=0.4.4", default-features = false, features = ["v7"] }
