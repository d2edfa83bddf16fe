[package]
name = "bcrypt_engine"
version = "0.1.0"
edition = "2021"
publish = false

[dependencies]
getrandom = "*"
clap = "*"

[dev-dependencies]
bcrypt = "*"
