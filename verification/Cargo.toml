[package]
name = "capturecard_viewer"
version = "0.1.0"
edition = "2021"
publish = false

[dependencies]
ringbuf = "=0.3.3"
serde = { version = "1", features = ["derive"] }
confy = "=0.5.1"
dirs = "=5.0.1"
chrono = { version = "0.4", default-features = false, features = ["clock"] }
image = { version = "=0.24.9", default-features = false, features = ["jpeg"] }
