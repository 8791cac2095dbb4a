[package]
name = "bridge"
version = "0.1.0"
edition = "2021"
publish = false

[dependencies]
kurrentdb = "*"
eyre = "*"
neon = "1"
tokio = { version = "1", features = ["rt-multi-thread", "sync"] }
