[package]
name = "serial_wizard"
version = "0.1.0"
edition = "2021"
publish = false

[dependencies]
chrono = "=0.4.45"
serialport = { version = "=4.10.1", default-features = false }
serde = { version = "1", features = ["derive"] }
rfd = { version = "=0.10.0", default-features = false, features = ["gtk3"] }
