[package]
name = "launchpad_mk2"
version = "0.1.0"
edition = "2021"
publish = false

[dependencies]
midir = "*"
inputbot = "*"
