[package]
name = "zk_session"
version = "0.1.0"
edition = "2021"
publish = false

[dependencies]
byteorder = "1"
futures = "0.3"
tokio = { version = "1", features = ["rt", "sync"] }
