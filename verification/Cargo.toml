[package]
name = "tron_server"
version = "0.1.0"
edition = "2021"
publish = false

[dependencies]
anyhow = "*"
lazy_static = "*"
serde = { version = "*", features = ["derive"] }
structopt = "*"
thiserror = "*"
tokio = { version = "*", features = ["sync"] }
