[package]
name = "hostnamed"
version = "0.1.0"
edition = "2021"
publish = false

[dependencies]
zbus = "=5.19.0"
zbus_polkit = "=5.1.0"
nix = { version = "=0.31.3", features = ["hostname", "feature"] }
os-release = "=0.1.0"
smol = "=2.0.2"
