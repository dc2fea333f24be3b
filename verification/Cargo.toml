[package]
name = "command_runner"
version = "0.1.0"
edition = "2021"
publish = false

[dependencies]
indicatif = "0.17"
