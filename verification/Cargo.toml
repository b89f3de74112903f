[package]
name = "wallwarp_online"
version = "0.1.0"
edition = "2021"
publish = false

[dependencies]
iced = { version = "=0.14.0", default-features = false, features = ["image", "x11", "tiny-skia", "thread-pool"] }
chrono = "=0.4.45"
