[package]
name = "buildsys"
version = "0.1.0"
edition = "2021"
publish = false

[dependencies]
anyhow = "=1.0.104"
clap = { version = "=4.6.7", features = ["derive"] }
duct = "=0.13.7"
env_logger = "=0.10.2"
hex = "=0.4.3"
log = "=0.4.34"
nix = { version = "=0.29.0", features = ["fs"] }
rand = "=0.8.8"
sha2 = "=0.10.9"
tokio = { version = "=1.53.2", features = ["rt-multi-thread", "net"] }
uds = { version = "=0.4.2", features = ["tokio"] }
walkdir = "=2.5.0"
