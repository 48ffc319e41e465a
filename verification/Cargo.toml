[package]
name = "tartaros"
version = "0.1.0"
edition = "2021"
publish = false

[dependencies]
serde_json = "1"
xml-rs = "0.8"
colored = "2"
comfy-table = "7"
url = "2"
which = "*"
