[package]
name = "wayfreeze"
version = "0.1.0"
edition = "2021"
publish = false

[dependencies]
clap = { version = "*", features = ["derive"] }
env_logger = "*"
log = "*"
tempfile = "*"
wayland-client = "*"
wayland-protocols = { version = "*", features = ["client", "staging", "unstable"] }
wayland-protocols-wlr = { version = "*", features = ["client"] }
xkbcommon = "*"
