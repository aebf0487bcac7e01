[package]
name = "exo_rs"
version = "0.1.0"
edition = "2021"
publish = false

[dependencies]
crc = "=3.4.0"
embedded-can = "=0.4.1"
heapless = "=0.8.0"
embedded-hal = { version = "=0.2.7", features = ["unproven"] }
nb = "=1.1.0"
