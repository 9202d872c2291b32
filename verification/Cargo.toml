[package]
name = "gzip_size"
version = "0.1.0"
edition = "2021"
publish = false

[dependencies]
anyhow = "1"
atty = "0.2"
clap = { version = "4", features = ["derive"] }
flate2 = "1"
humansize = "2"
