[package]
name = "presence_report"
version = "0.1.0"
edition = "2021"
publish = false

[dependencies]
chrono = "0.4"
user-idle = "*"
reqwest = { version = "0.11", features = ["json"] }
serde = { version = "1", features = ["derive"] }
window-shadows = "0.2"
window-vibrancy = "0.4"
