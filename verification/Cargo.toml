[package]
name = "ipv6_probe"
version = "0.1.0"
edition = "2021"
publish = false

[dependencies]
nix = { version = "0.26", default-features = false, features = ["net"] }
socket2 = { version = "0.4", features = ["all"] }
