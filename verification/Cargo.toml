[package]
name = "exec_bridge"
version = "0.1.0"
edition = "2021"
publish = false

[dependencies]
crossbeam-channel = "0.5"
tokio = { version = "1", default-features = false, features = ["rt"] }
