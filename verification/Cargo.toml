[package]
name = "rat"
version = "0.1.0"
edition = "2021"
publish = false

[dependencies]
clap = { version = "=4.5.61", features = ["derive"] }
nix = { version = "=0.29.0", features = ["fs"] }
