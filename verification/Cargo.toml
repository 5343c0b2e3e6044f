[package]
name = "mpk"
version = "0.1.0"
edition = "2021"
publish = false

[dependencies]
clap = { version = "=4.6.7", features = ["derive"] }
hex = "=0.4.3"
rmp-serde = "=1.3.1"
serde_json = "=1.0.154"
serde-transcode = "=1.1.1"
