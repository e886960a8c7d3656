[package]
name = "uptime_monitor"
version = "0.1.0"
edition = "2021"
publish = false

[dependencies]
headless_chrome = "=0.9.0"
curl = { version = "=0.4.50", default-features = false }
rayon = "=1.12.0"
serde = "=1.0.229"
serde_derive = "=1.0.229"
toml = "=0.5.11"
