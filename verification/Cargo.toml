[package]
name = "fortify"
version = "0.1.0"
edition = "2021"
publish = false

[dependencies]
rand = "*"
hex = "*"
base64 = "*"
uuid = { version = "*", features = ["v4", "v7"] }
arboard = "*"
clap = { version = "*", features = ["derive"] }
dialoguer = "*"
zxcvbn = "*"
