[package]
name = "butter_biscuit"
version = "0.1.0"
edition = "2021"
publish = false

[dependencies]
rand = "0.8"
web-time = "1"
bottomless-pit = "*"
