[package]
name = "cca_rsi"
version = "0.1.0"
edition = "2021"
publish = false

[dependencies]
thiserror = "2"
nix = { version = "0.29", features = ["ioctl", "mman", "fs", "feature"] }
bitfield-struct = "*"
open-enum = "*"
