[package]
name = "gpwg"
version = "0.1.0"
edition = "2021"
publish = false

[dependencies]
rand = "0.8"
zxcvbn = "2"
clap = "3"
clipboard = "0.5"
ctrlc = "3"
