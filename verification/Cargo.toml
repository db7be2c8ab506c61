[package]
name = "toposhield"
version = "0.1.0"
edition = "2021"
publish = false

[dependencies]
ff = "=0.13.1"
halo2curves = "=0.10.0"
hex = "=0.4.3"
rand = "=0.8.8"
sha2 = "=0.10.9"
serde = { version = "1", features = ["derive"] }
serde_json = "1"
bincode = "=1.3.3"
