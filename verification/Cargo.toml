[package]
name = "pygmentize"
version = "0.2.0"
edition = "2021"
publish = false

[dependencies]
winapi-util = "0.1"
