[package]
name = "wsqshed"
version = "0.1.0"
edition = "2021"
publish = false

[dependencies]
uuid = { version = "1", features = ["v4"] }
names = { version = "0.14", default-features = false }
rayon = "1"
csv = "1"
