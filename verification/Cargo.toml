[package]
name = "helium"
version = "0.1.0"
edition = "2021"
publish = false

[dependencies]
ansi-escapes = "*"
clap = { version = "*", features = ["derive"] }
owo-colors = "*"
