[package]
name = "gamebooster"
version = "0.1.0"
edition = "2021"
publish = false

[dependencies]
rusqlite = { version = "*", features = ["bundled"] }
chrono = "0.4"
serde = { version = "1", features = ["derive"] }
sysinfo = "*"
log = "0.4"
