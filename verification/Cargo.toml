[package]
name = "eel_file"
version = "0.1.0"
edition = "2021"
publish = false

[dependencies]
sysinfo = "*"
tokio = { version = "*", features = ["rt-multi-thread", "net", "io-util", "fs", "time", "sync", "macros"] }
tokio-util = "*"
chrono = "*"
