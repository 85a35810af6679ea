[package]
name = "scopobot"
version = "0.1.0"
edition = "2021"
publish = false

[dependencies]
image = { version = "=0.25.10", default-features = false, features = ["png"] }
serde = { version = "1", features = ["derive"] }
serde_json = "1"
anyhow = "1"
chrono = "0.4"
crossterm = "0.29"
sysinfo = "0.40"
battery = "0.7"
netdev = "0.47"
directories = "6"
ureq = { version = "3", features = ["json"] }
