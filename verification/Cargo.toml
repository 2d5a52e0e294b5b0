[package]
name = "voluntary_servitude"
version = "4.0.8"
edition = "2021"
publish = false

[dependencies]
parking_lot = "0.12"
byteorder = "1"
serde = "1"
rayon = "1"

[dev-dependencies]
serde_json = "1"
