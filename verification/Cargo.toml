[package]
name = "pty_bridge"
version = "0.1.0"
edition = "2021"
publish = false

[dependencies]
anyhow = "*"
nix = { version = "*", features = ["term", "process", "fs"] }
tokio = { version = "*", features = ["rt-multi-thread", "macros", "io-util", "io-std", "sync", "time", "fs"] }
