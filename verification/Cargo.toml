[package]
name = "watt"
version = "0.1.0"
edition = "2021"
publish = false

[dependencies]
base64 = "0.22"
hex = "0.4"
md-5 = "0.10"
sha2 = "0.10"
clap = "4"
