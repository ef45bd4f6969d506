[package]
name = "fetched_sources"
version = "0.1.0"
edition = "2021"
publish = false

[dependencies]
anyhow = "1"
semver = "1"
url = "2"
