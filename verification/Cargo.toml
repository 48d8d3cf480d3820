[package]
name = "raw_inspect"
version = "0.1.0"
edition = "2021"
publish = false

[dependencies]
rawler = "*"
serde = "*"
serde_json = "*"
serde_yaml = "*"
clap = "*"
log = "*"
hex = "*"
