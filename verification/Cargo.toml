[package]
name = "grit"
version = "0.1.0"
edition = "2021"
publish = false

[dependencies]
camino = "*"
clap = { version = "*", features = ["derive"] }
color-eyre = "*"
eyre = "*"
fastrand = "*"
owo-colors = "*"
shellexpand = "*"
tokio = { version = "*", features = ["rt", "macros", "process", "io-util"] }
