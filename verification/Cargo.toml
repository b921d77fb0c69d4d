[package]
name = "macro_runner"
version = "0.1.0"
edition = "2021"
publish = false

[dependencies]
eframe = { version = "=0.22.0", default-features = false, features = ["default_fonts", "glow"] }
inputbot = "=0.6.0"
log = "=0.4.34"
serde = { version = "=1.0.229", features = ["derive"] }
spin_sleep = "=1.3.3"
strum = "=0.25.0"
