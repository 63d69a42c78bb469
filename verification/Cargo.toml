[package]
name = "rogga"
version = "0.1.0"
edition = "2021"
publish = false

[dependencies]
dashmap = "*"
serde_json = "*"
url = "*"
async-std = "*"
async-trait = "*"
futures = "*"
