[package]
name = "multi_thread_iced"
version = "0.1.0"
edition = "2021"
publish = false

[dependencies]
hidapi = "*"
tokio = { version = "*", features = ["sync"], default-features = false }
