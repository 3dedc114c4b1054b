[package]
name = "ada_staking"
version = "0.1.0"
edition = "2021"
publish = false

[dependencies]
clap = "=3.2.25"
poloto = "=12.0.2"
serde = { version = "=1.0.229", features = ["derive"] }
serde_json = "=1.0.154"
