[package]
name = "shackle"
version = "0.1.0"
edition = "2021"
publish = false

[dependencies]
clap = { version = "=4.6.7", features = ["derive"] }
env_logger = "=0.11.11"
fork = "=0.11.0"
futures = "=0.3.34"
gtk4 = { version = "=0.11.5", features = ["v4_12"] }
gtk4-session-lock = "=0.4.1"
home = "*"
itertools = "=0.15.0"
log = "=0.4.34"
nix = { version = "=0.31.3", features = ["fs", "signal"] }
nonstick = "=0.1.2"
rand = "=0.10.3"
users = "=0.11.0"
zbus = "=6.1.0"
