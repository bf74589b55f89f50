[package]
name = "pg_datanymizer"
version = "0.1.0"
edition = "2021"
publish = false

[dependencies]
anyhow = "1"
postgres = "0.19"
url = "2"
