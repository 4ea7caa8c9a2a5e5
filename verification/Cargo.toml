[package]
name = "fan-service"
version = "0.1.0"
edition = "2021"
publish = false

[dependencies]
exitcode = "1"
log = "0.4"
regex = "1"
rppal = "*"
serde = { version = "1", features = ["derive"] }
syslog = "*"
toml = "*"
