[package]
name = "atomic_write_file"
version = "0.1.0"
edition = "2021"
publish = false

[dependencies]
nix = { version = "=0.27.1", features = ["fs", "user", "dir"] }
rand = "=0.8.8"
async-std = "=1.13.2"
