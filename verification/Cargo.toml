[package]
name = "rustcv"
version = "0.1.0"
edition = "2021"
publish = false

[dependencies]
image = "*"
v4l = "*"
tokio = { version = "*", default-features = false, features = ["rt-multi-thread", "sync"] }
crossbeam-channel = "*"
anyhow = "*"
serde_json = "*"
async-trait = "*"
