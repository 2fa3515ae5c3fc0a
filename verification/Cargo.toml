[package]
name = "tropocol"
version = "0.1.0"
edition = "2021"
publish = false

[dependencies]
async-channel = "*"
async-fifo = "*"
async-net = "*"
futures-lite = "*"
serde = "*"
serde_json = "*"
