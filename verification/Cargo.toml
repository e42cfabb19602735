[package]
name = "mimic_keyboard"
version = "0.1.0"
edition = "2021"
publish = false

[dependencies]
clap = { version = "4", features = ["derive"] }
hyper = { version = "0.14", features = ["client", "http1", "tcp", "runtime"] }
rodio = { version = "0.17", default-features = false, features = ["wav"] }
tokio = { version = "1", features = ["full"] }
urlencoding = "2"
