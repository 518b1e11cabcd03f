[package]
name = "cycling_trainer"
version = "0.1.0"
edition = "2021"
publish = false

[dependencies]
btleplug = "=0.11.8"
chrono = "=0.4.45"
dbus = { version = "=0.9.12", features = ["vendored"] }
dirs = "=5.0.1"
futures = "=0.3.34"
lazy_static = "=1.5.1"
log = "=0.4.34"
quick-xml = { version = "=0.31.0", features = ["serialize"] }
rand = "=0.8.8"
serde = { version = "=1.0.229", features = ["derive"] }
serde_json = "=1.0.154"
tokio = { version = "=1.54.1", features = ["full"] }
uuid = { version = "=1.29.0", features = ["v4"] }
