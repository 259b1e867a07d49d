[package]
name = "vas-quod"
version = "0.1.0"
edition = "2021"
publish = false

[dependencies]
clap = "2.33"
nix = "0.22"
