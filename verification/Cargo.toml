[package]
name = "ah_config"
version = "0.1.0"
edition = "2021"
publish = false

[dependencies]
config = { version = "*", default-features = false, features = ["toml"] }
log = "*"
sdre-rust-logging = "*"
