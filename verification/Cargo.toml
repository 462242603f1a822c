[package]
name = "simple_password_generator"
version = "0.1.0"
edition = "2021"
publish = false

[dependencies]
passwords = "*"
native-windows-gui = "*"
