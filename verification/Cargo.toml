[package]
name = "freqlab"
version = "0.1.0"
edition = "2021"
publish = false

[dependencies]
rand = "=0.10.3"
serde = { version = "=1.0.229", features = ["derive"] }
serde_json = "=1.0.151"
notify = "=8.2.0"
ringbuf = "=0.5.2"
symphonia = "0.5"
libc = "=0.2.190"
chrono = "=0.4.45"
uuid = { version = "=1.27.0", features = ["v4"] }
