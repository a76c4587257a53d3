[package]
name = "dway_server"
version = "0.1.0"
edition = "2021"
publish = false

[dependencies]
encoding = "=0.2.33"
uuid = { version = "=1.29.0", features = ["v4"] }
rstar = "=0.12.2"
wayland-backend = "=0.3.17"
wayland-server = "=0.31.14"
wayland-protocols = { version = "=0.32.13", features = ["server", "staging", "unstable"] }
x11rb = { version = "=0.13.2", features = ["composite"] }
thiserror = "=1.0.69"
anyhow = "=1.0.104"
nix = { version = "0.29", features = ["fs", "signal", "process"] }
