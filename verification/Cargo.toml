[package]
name = "pcr_sim"
version = "0.1.0"
edition = "2021"
publish = false

[dependencies]
sha1 = "0.10"
sha2 = "0.10"
sha3 = "0.10"
libsm = "*"

[dev-dependencies]
hex = "0.4"
