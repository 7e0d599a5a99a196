[package]
name = "tui"
version = "0.1.0"
edition = "2021"

[dependencies]
unicode-width = "=0.1.8"
