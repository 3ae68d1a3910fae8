[package]
name = "cyclonedds"
version = "0.1.0"
edition = "2021"
publish = false

[dependencies]
cdr-encoding = "*"
byteorder = "*"
md-5 = "*"
serde = { version = "*", features = ["derive"] }
