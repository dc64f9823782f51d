[package]
name = "clearcore_flash"
version = "0.1.0"
edition = "2021"
publish = false

[dependencies]
chrono = "=0.4.45"
cansi = "=2.2.1"
anyhow = "=1.0.104"
log = "=0.4.35"
env_logger = { version = "=0.11.11", default-features = false }
futures = "=0.3.34"
tokio = { version = "=1.54.1", features = ["rt-multi-thread", "macros", "sync", "time"] }
tokio-serial = "=5.5.0"
tokio-util = { version = "=0.7.20", features = ["codec"] }
cxx = "=1.0.205"
bossa = "=2.3.0"
iced = { version = "=0.14.0", default-features = false, features = ["tiny-skia", "tokio", "advanced", "x11", "wayland"] }
iced_selection = "=0.5.0"
rfd = { version = "0.15", default-features = false, features = ["xdg-portal", "tokio"] }
