[package]
name = "file_encoder"
version = "0.1.0"
edition = "2021"
publish = false

[dependencies]
anyhow = "=1.0.104"
egui = "=0.31.1"
image = { version = "=0.25.10", default-features = false, features = ["bmp", "jpeg", "png", "webp"] }
notan = { version = "=0.14.0", default-features = false, features = ["egui", "glsl-to-spirv"] }
serde = { version = "=1.0.229", features = ["derive"] }
strum = { version = "=0.28.0", features = ["derive"] }
tempfile = "=3.27.0"
