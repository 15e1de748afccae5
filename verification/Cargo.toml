[package]
name = "can_type_rs"
version = "0.1.0"
edition = "2021"
publish = false

[dependencies]
bitfield-struct = "*"
log = "0.4"
tokio = { version = "1", features = ["time"] }
