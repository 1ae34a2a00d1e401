[package]
name = "pyrocast"
version = "0.1.0"
edition = "2021"
publish = false

[dependencies]
regex = "=1.13.1"
serde = { version = "=1.0.229", features = ["derive"] }
serde-xml-rs = "=0.4.1"
surf = { version = "=2.3.2", default-features = false, features = ["h1-client-rustls"] }
async-std = "=1.13.2"
crossbeam-channel = "=0.5.17"
futures = "=0.3.34"
sqlite = "0.25"
directories = "5"
