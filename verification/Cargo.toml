[package]
name = "itw_launcher"
version = "0.1.0"
edition = "2021"

[dependencies]
dunce = "1"
