[package]
name = "ml-kem"
version = "0.1.0"
edition = "2021"
publish = false

[dependencies]
sha3 = "0.10"
generic-array = { version = "1", features = ["const-default"] }
hybrid-array = "*"
typenum = "1"
const-default = "1"

[dev-dependencies]
rand = "0.8"
