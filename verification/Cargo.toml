[package]
name = "xdg-desktop-portal-agl"
version = "0.1.0"
edition = "2021"
publish = false

[dependencies]
png = "=0.17.16"
wayland-client = "=0.31.15"
wayland-scanner = "=0.31.11"
wayland-protocols = { version = "=0.32.13", features = ["client"] }
wayland-protocols-wlr = { version = "=0.3.12", features = ["client"] }
zbus = { version = "=5.19.0", default-features = false, features = ["tokio"] }
tokio = { version = "=1.54.1", features = ["macros", "rt", "signal"] }
tracing = "=0.1.44"
tracing-subscriber = "=0.3.23"
anyhow = "=1.0.104"
thiserror = "=2.0.21"
libc = "=0.2.191"
