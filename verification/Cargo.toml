[package]
name = "bb_rs"
version = "0.1.0"
edition = "2021"

[dependencies]
tracing = "0.1"
