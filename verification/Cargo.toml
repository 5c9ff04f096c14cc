[package]
name = "juhradial"
version = "0.1.0"
edition = "2021"
publish = false

[dependencies]
hidapi = "*"
libc = "*"
tokio = { version = "*", features = ["rt", "time", "sync", "macros"] }
