[package]
name = "mwatch_spoofer"
version = "0.1.0"
edition = "2021"
publish = false

[dependencies]
crc = "1"
blurz = "*"
structopt = "*"

[dev-dependencies]
simple-hex = "*"
