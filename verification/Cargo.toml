[package]
name = "proto_detect"
version = "0.1.0"
edition = "2021"
publish = false

[dependencies]
version_spec = "*"
sha2 = "*"
