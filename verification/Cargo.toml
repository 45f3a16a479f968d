[package]
name = "unpadit"
version = "0.1.0"
edition = "2021"
publish = false

[dependencies]
pelite = "=0.10.0"
clap = { version = "=4.6.7", features = ["derive"] }
dataview = "=1.1.0"
