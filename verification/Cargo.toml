[package]
name = "fls"
version = "0.1.0"
edition = "2021"
publish = false

[dependencies]
anyhow = "1"
clap = { version = "4", features = ["derive"] }
eframe = { version = "0.22", default-features = false, features = ["glow", "default_fonts"] }
env_logger = "0.10"
log = "0.4"
socket2 = "0.5"
