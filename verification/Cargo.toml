[package]
name = "faf_replay"
version = "0.1.0"
edition = "2021"
publish = false

[dependencies]
base64 = "0.13"
clap = "2.34"
flate2 = "1"
tempfile = "3"
