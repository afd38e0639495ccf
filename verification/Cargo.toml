[package]
name = "compute-static"
version = "0.1.0"
edition = "2021"
publish = false

[dependencies]
fastly = "=0.9.12"
log = "=0.4.34"
log-fastly = "=0.9.12"
serde = { version = "=1.0.229", features = ["derive"] }
serde_json = "=1.0.154"
time = { version = "=0.3.23", features = ["serde"] }
