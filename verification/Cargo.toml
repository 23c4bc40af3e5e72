[package]
name = "picontrolx"
version = "0.1.0"
edition = "2021"
publish = false

[dependencies]
async-stream = "0.3"
block-utils = "*"
clap = "2"
futures = "0.3"
log = "0.4"
prost = "0.13"
simplelog = "0.12"
tokio = { version = "1", features = ["macros", "rt", "rt-multi-thread", "signal", "sync", "time"] }
tonic = "0.12"
uuid = "*"
