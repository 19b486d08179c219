[package]
name = "pam_fullmoon"
version = "0.1.0"
edition = "2021"
publish = false

[dependencies]
moon-phase = "*"
