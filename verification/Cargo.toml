[package]
name = "edge_kvm"
version = "0.1.0"
edition = "2021"
publish = false

[dependencies]
anyhow = "=1.0.104"
ashpd = { version = "=0.13.13", default-features = false, features = ["tokio", "input_capture"] }
chacha20poly1305 = "=0.10.1"
clap = { version = "=4.6.7", features = ["derive"] }
evdev = "=0.13.2"
futures-util = "=0.3.34"
hex = "=0.4.3"
image = { version = "=0.25.10", default-features = false, features = ["png", "jpeg", "bmp"] }
ksni = "=0.3.7"
libc = "=0.2.191"
reis = { version = "=0.7.1", features = ["tokio"] }
rmp-serde = "=1.3.1"
serde = { version = "=1.0.229", features = ["derive"] }
serde_json = "=1.0.154"
sha2 = "=0.10.9"
snow = "=0.9.6"
socket2 = { version = "=0.6.5", features = ["all"] }
tokio = { version = "=1.54.1", features = ["full"] }
toml = "=0.8.23"
tracing = "=0.1.44"
tracing-subscriber = { version = "=0.3.23", features = ["env-filter"] }
wayland-client = "=0.31.15"
wayland-protocols-misc = { version = "0.3", features = ["client"] }
wayland-protocols-wlr = { version = "=0.3.12", features = ["client"] }
