[package]
name = "telnet_bridge"
version = "0.1.0"
edition = "2021"
publish = false

[dependencies]
telnet = "*"
tokio = { version = "1", features = ["rt-multi-thread", "sync", "time", "macros"] }
