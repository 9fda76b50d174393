[package]
name = "gnop_pong"
version = "0.1.0"
edition = "2021"
publish = false

[dependencies]
c2 = "*"
getopts = "*"
opencv = "*"
rand = "0.8"
