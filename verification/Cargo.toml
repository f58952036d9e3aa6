[package]
name = "frame_pipeline"
version = "0.1.0"
edition = "2021"
publish = false

[dependencies]
image = { version = "=0.25.10", default-features = false, features = ["jpeg", "png"] }
clap = { version = "=4.5.61", features = ["derive"] }
crossbeam = "=0.8.5"
framebuffer = "=0.3.2"
rodio = "=0.21.1"
