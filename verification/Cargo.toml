[package]
name = "ppm_prototype"
version = "0.1.0"
edition = "2021"
publish = false

[dependencies]
hpke = { version = "=0.14.1", features = ["hkdfsha2"] }
prio = "=0.18.1"
rand = "=0.10.3"
serde = { version = "=1.0.229", features = ["derive"] }
serde_json = "=1.0.151"
url = "=2.5.8"
