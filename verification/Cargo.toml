[package]
name = "arctracker_sync"
version = "0.2.0"
edition = "2021"
publish = false

[dependencies]
anyhow = "1"
chrono = { version = "0.4", default-features = false, features = ["clock", "std", "alloc"] }
eframe = { version = "0.33", default-features = false, features = ["default_fonts", "glow", "x11"] }
libc = "0.2"
rfd = { version = "0.15", default-features = false, features = ["xdg-portal", "async-std"] }
rust-i18n = "3"
serde_json = "1"
tracing = "0.1"
