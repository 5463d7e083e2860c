[package]
name = "size_limit"
version = "0.1.0"
edition = "2021"
publish = false

[dependencies]
headers = "0.4"
http = "1"
async-trait = "0.1"
