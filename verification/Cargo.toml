[package]
name = "rusky_prompt"
version = "0.1.0"
edition = "2021"
publish = false

[dependencies]
termion = "=4.0.6"
