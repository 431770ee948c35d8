[package]
name = "mouse2joystick"
version = "0.1.0"
edition = "2021"
publish = false

[dependencies]
mio = { version = "=0.8.11", features = ["os-poll", "os-ext"] }
nix = "=0.26.4"
evdev = "=0.12.2"
inotify = "=0.10.2"
serde = { version = "=1.0.229", features = ["derive"] }
serde_json = "=1.0.151"
