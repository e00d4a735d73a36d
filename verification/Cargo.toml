[package]
name = "whitakers_words"
version = "0.1.0"
edition = "2021"
publish = false

[dependencies]
clap = "=3.2.25"
regex = "=1.13.1"
serde = { version = "=1.0.229", features = ["derive"] }
serde_json = "1"
