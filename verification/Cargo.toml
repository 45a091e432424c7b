[package]
name = "art_slideshow"
version = "0.1.0"
edition = "2021"
publish = false

[dependencies]
eframe = { version = "0.29", default-features = false, features = ["default_fonts", "glow", "x11"] }
image = { version = "0.25", default-features = false, features = ["bmp", "gif", "jpeg", "png"] }
serde = { version = "1", features = ["derive"] }
serde_json = "1"
