[package]
name = "newspenguin_rss"
version = "0.1.0"
edition = "2021"
publish = false

[dependencies]
anyhow = "1"
chrono = "0.4"
rss = "2"
spin-sdk = "3.1"
