[package]
name = "arbitrum_exporter"
version = "0.1.0"
edition = "2021"
publish = false

[dependencies]
ethers = { version = "2.0", default-features = false, features = ["rustls"] }
hyper = { version = "0.14", features = ["full"] }
prometheus = "0.13"
tokio = { version = "1", features = ["full"] }
