[package]
name = "buttplug"
version = "0.1.0"
edition = "2021"
publish = false

[dependencies]
evmap = "10"
async-channel = "1"
async-std = "1"
async-trait = "0.1"
futures = "0.3"
tokio = { version = "1", features = ["rt", "rt-multi-thread", "sync"] }
uuid = "1"
