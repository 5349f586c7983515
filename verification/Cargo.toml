[package]
name = "auto_fast_dl"
version = "0.1.0"
edition = "2021"
publish = false

[dependencies]
anyhow = "1"
chrono = "0.4"
colored = "2"
futures = "0.3"
indicatif = "0.17"
num-format = "0.4"
reqwest = { version = "0.12", default-features = false, features = ["rustls-tls"] }
sysinfo = "0.30"
tokio = { version = "1", features = ["full"] }
uuid = { version = "1", features = ["v4"] }
