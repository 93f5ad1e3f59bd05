[package]
name = "scry_link"
version = "0.1.0"
edition = "2021"
publish = false

[dependencies]
object = { version = "*", features = ["write"] }
memchr = "2"
zerocopy = "0.8"
