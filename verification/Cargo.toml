[package]
name = "dex_dumper"
version = "0.1.0"
edition = "2021"
publish = false

[dependencies]
nix = { version = "*", features = ["signal"] }
proc-maps = "*"
clap = { version = "*", features = ["derive"] }
