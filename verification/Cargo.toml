[package]
name = "projclean"
version = "0.1.0"
edition = "2021"
publish = false

[dependencies]
walkdir = "2"
clap = { version = "4", features = ["derive"] }
console = "0.15"
dialoguer = "0.11"
