[package]
name = "libevent_tokio"
version = "0.1.0"
edition = "2021"
publish = false

[dependencies]
tokio = { version = "1", features = ["rt", "net", "signal", "sync", "time", "macros"] }
