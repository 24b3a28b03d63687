[package]
name = "cargo_v5"
version = "0.1.0"
edition = "2021"
publish = false

[dependencies]
anyhow = "=1.0.104"
chrono = "=0.4.45"
clap = { version = "=3.2.25", features = ["derive"] }
console = "=0.15.11"
dialoguer = "=0.10.4"
dirs = "=4.0.0"
indicatif = "=0.17.11"
serde = { version = "=1.0.229", features = ["derive"] }
serialport = { version = "=4.10.1", default-features = false, features = ["usbportinfo-interface"] }
toml = "=0.5.11"

[dev-dependencies]
ascii = "=1.1.0"
bincode = "=1.3.3"
crc = "=3.4.0"
