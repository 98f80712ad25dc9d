[package]
name = "benchplot"
version = "0.1.0"
edition = "2021"
publish = false

[dependencies]
resvg = "=0.45.1"
clap = { version = "=4.5.61", features = ["derive"] }
