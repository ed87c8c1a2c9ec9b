[package]
name = "botocore_model"
version = "0.1.0"
edition = "2021"
publish = false

[dependencies]
html2md = "*"
serde_json = "*"
