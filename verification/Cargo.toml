[package]
name = "pty_process"
version = "0.1.0"
edition = "2021"
publish = false

[dependencies]
async-process = "=1.8.1"
rustix = { version = "=1.1.5", features = ["pty", "process", "stdio", "fs"] }

[dev-dependencies]
futures-lite = "=2.6.1"
