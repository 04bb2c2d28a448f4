[package]
name = "data_transfers"
version = "0.1.0"
edition = "2021"
publish = false

[dependencies]
anyhow = "1"
csv = "1"
oracle = "*"
ssh2 = "*"
suppaftp = "*"
