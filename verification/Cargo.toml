[package]
name = "rust_projects"
version = "0.1.0"
edition = "2021"
publish = false

[dependencies]
hyper = { version = "0.14", features = ["server", "http1", "tcp"] }
rand = "0.8"
rustls = "0.19"
tokio = { version = "1", features = ["full"] }
