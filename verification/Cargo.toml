[package]
name = "netdev_sandbox"
version = "0.1.0"
edition = "2021"
publish = false

[dependencies]
event-listener = "*"
uuid = { version = "*", features = ["v4"] }
futures = "*"
tokio = { version = "*", features = ["rt", "macros", "time", "sync"] }
anyhow = "*"
