[package]
name = "failure_core"
version = "0.1.0"
edition = "2021"
publish = false

[dependencies]
crossbeam = "*"
csv = "*"
minijinja = "*"
serde_json = "*"
