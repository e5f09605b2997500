[package]
name = "minibox"
version = "0.1.0"
edition = "2021"
publish = false

[dependencies]
serde_json = "1"
flate2 = "1"
reqwest = { version = "0.12", default-features = false, features = ["blocking"] }
tar = "0.4"
tempfile = "3"
libc = "0.2"
