[package]
name = "image_ops"
version = "0.1.0"
edition = "2021"
publish = false

[dependencies]
image = "=0.24.9"
imageproc = "=0.23.1"
rusttype = "=0.9.3"
textwrap = "=0.16.4"
base64 = "=0.13.1"
conv = "=0.3.3"
bytemuck = "=1.25.2"
owned_ttf_parser = "=0.15.2"
serde = { version = "=1.0.229", features = ["derive"] }
reqwest = { version = "=0.11.27", default-features = false, features = ["blocking"] }
