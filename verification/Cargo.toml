[package]
name = "conniecs"
version = "0.1.0"
edition = "2021"
publish = false

[dependencies]
index-pool = "*"
time = "=0.1.45"
