[package]
name = "shell_platform"
version = "0.1.0"
edition = "2021"
publish = false

[dependencies]
cocoa = "*"
objc = "0.2"
