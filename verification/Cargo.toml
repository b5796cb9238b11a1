[package]
name = "bottle_installer"
version = "0.1.0"
edition = "2021"
publish = false

[dependencies]
dialoguer = "*"
directories = "*"
downloader = "*"
flate2 = "*"
tar = "*"
