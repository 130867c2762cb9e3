[package]
name = "async_ssh2_lite"
version = "0.1.0"
edition = "2021"
publish = false

[dependencies]
ssh2 = "0.9"
tokio = { version = "1", features = ["net", "time", "rt"] }
futures-util = "0.3"
async-trait = "0.1"
