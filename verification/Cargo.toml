[package]
name = "spectra"
version = "0.1.0"
edition = "2021"
publish = false

[dependencies]
glsl = "=4.1.1"
serde = { version = "=1.0.229", features = ["derive"] }
serde_json = "=1.0.154"
wavefront_obj = "=5.1.0"
chrono = "=0.4.45"
clap = "2"
