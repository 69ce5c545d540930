[package]
name = "compat_backend"
version = "0.1.0"
edition = "2021"
publish = false

[dependencies]
chrono = "*"
dirs = "*"
serde = { version = "1", features = ["derive"] }
sysinfo = "*"
