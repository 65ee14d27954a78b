[package]
name = "actix_directory"
version = "0.1.0"
edition = "2021"
publish = false

[dependencies]
bincode = "1"
serde = "1"
serde_json = "1"
url = "2"
tempfile = "3"
