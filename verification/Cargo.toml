[package]
name = "blake3_digest"
version = "0.1.0"
edition = "2021"
publish = false

[dependencies]
blake3 = "*"
hex = "*"
base64 = "*"
magnus = "*"
rb-sys = "*"
