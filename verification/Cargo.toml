[package]
name = "trdelnik"
version = "0.1.0"
edition = "2021"
publish = false

[dependencies]
tokio = { version = "1", features = ["process", "fs", "io-util"] }
futures = "0.3"
cargo_metadata = "*"
thiserror = "*"
