[package]
name = "concert_calendar"
version = "0.1.0"
edition = "2021"
publish = false

[dependencies]
chrono = { version = "=0.4.45", features = ["serde"] }
chrono-tz = "=0.10.4"
icalendar = "=0.15.8"
regex = "=1.13.1"
url = { version = "=2.5.8", features = ["serde"] }
uuid = { version = "=1.29.0", features = ["v4", "serde"] }
log = "=0.4.35"
rocket = { version = "=0.5.2", features = ["json"] }
reqwest = { version = "=0.12.28", default-features = false, features = ["rustls-tls"] }
