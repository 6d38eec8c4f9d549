[package]
name = "nh-system"
version = "0.1.0"
edition = "2021"
publish = false

[dependencies]
clap = { version = "4", features = ["derive", "env"] }
color-eyre = "0.6"
inquire = "*"
nix = { version = "*", features = ["user"] }
tempfile = "3"
tracing = "0.1"
