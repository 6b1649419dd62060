[package]
name = "soft_plc"
version = "0.1.0"
edition = "2021"
publish = false

[dependencies]
bcrypt = "0.15"
rand = "0.8"
rusqlite = { version = "0.31", features = ["bundled"] }
chrono = "0.4"
serde = { version = "1", features = ["derive"] }
sysinfo = "0.22"
time = "0.3"
rocket = { version = "0.5", features = ["json"] }
rppal = "0.14"
