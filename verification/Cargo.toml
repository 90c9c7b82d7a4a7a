[package]
name = "bevyhub_api"
version = "0.1.0"
edition = "2021"
publish = false

[dependencies]
semver = "1"
serde_json = "1"
toml = "*"
flate2 = "1"
tar = "*"
