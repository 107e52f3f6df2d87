[package]
name = "rustsec"
version = "0.1.0"
edition = "2021"
publish = false

[dependencies]
toml = "*"
cvss = "*"
reqwest = { version = "*", default-features = false, features = ["blocking"] }
