[package]
name = "kdotool"
version = "0.1.0"
edition = "2021"
publish = false

[dependencies]
anyhow = "=1.0.104"
chrono = "=0.4.45"
dbus = { version = "=0.9.12", features = ["vendored"] }
env_logger = "=0.11.11"
handlebars = "=6.4.4"
lexopt = "=0.3.2"
log = "=0.4.34"
serde_json = "=1.0.154"
tempfile = "=3.27.0"
