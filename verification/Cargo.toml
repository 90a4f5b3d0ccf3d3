[package]
name = "mdns_reflector"
version = "0.1.0"
edition = "2021"
publish = false

[dependencies]
clap = { version = "4", features = ["derive"] }
dns-parser = "*"
env_logger = "*"
ipnet = "*"
log = "*"
mimalloc = "*"
nix = { version = "*", features = ["event", "fs", "ioctl", "net", "socket", "uio"] }
