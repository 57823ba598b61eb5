[package]
name = "notepad"
version = "0.1.0"
edition = "2021"
publish = false

[dependencies]
native-windows-gui = "*"
