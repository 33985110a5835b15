[package]
name = "proto_error"
version = "0.1.0"
edition = "2021"
publish = false

[dependencies]
futures = "0.1"
openssl = "0.10"
