[package]
name = "media_mind"
version = "0.1.0"
edition = "2021"
publish = false

[dependencies]
byteorder = "=1.5.0"
serde = { version = "=1.0.229", features = ["derive"] }
serde_json = "=1.0.154"
glib = "=0.15.12"
mpris-player = "=0.6.3"
winapi = { version = "=0.3.9", features = ["winuser", "minwindef"] }
