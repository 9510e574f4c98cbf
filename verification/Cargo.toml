[package]
name = "audio_cutter"
version = "0.1.0"
edition = "2021"
publish = false

[dependencies]
rodio = { version = "=0.23.0", default-features = false, features = ["mp3"] }
eframe = { version = "=0.37.0", default-features = false, features = ["glow", "x11", "default_fonts"] }
rfd = { version = "=0.17.2", default-features = false, features = ["xdg-portal"] }
