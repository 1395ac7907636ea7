[package]
name = "sweetboy_core"
version = "0.1.0"
edition = "2021"
publish = false

[dependencies]
bincode = "=1.3.3"
serde = { version = "1", features = ["derive"] }
serde-big-array = "=0.5.1"
eframe = { version = "=0.29.1", default-features = false, features = ["default_fonts", "glow", "x11"] }
