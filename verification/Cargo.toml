[package]
name = "status_display"
version = "0.1.0"
edition = "2021"
publish = false

[dependencies]
embedded-graphics = "*"
ssd1306 = { version = "*", features = ["async", "graphics"] }
embassy-time = { version = "*", features = ["std"] }
