[package]
name = "systemd_timefmt"
version = "0.1.0"
edition = "2021"
publish = false

[dependencies]
chrono = "*"
chrono-systemd-time = "*"
clap = { version = "*", features = ["derive"] }

[dev-dependencies]
regex = "*"
