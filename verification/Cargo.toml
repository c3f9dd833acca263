[package]
name = "pushauth"
version = "0.1.0"
edition = "2021"
publish = false

[dependencies]
base64 = "=0.23.1"
openssl = "=0.10.81"
json = "=0.12.4"
reqwest = { version = "=0.10.10", features = ["blocking"] }
eventsource = "=0.5.0"
qrcode = "=0.14.1"
