[package]
name = "nspawn_lite"
version = "0.1.0"
edition = "2021"
publish = false

[dependencies]
nix = { version = "*", features = ["mount", "sched", "process", "fs", "signal"] }
libc = "*"
clap = "*"
