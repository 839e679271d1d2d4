[package]
name = "dispatcher"
version = "0.1.0"
edition = "2021"
publish = false

[dependencies]
futures = "0.3"
log = "0.4"
thiserror = "1"
tokio = { version = "1", default-features = false, features = ["sync"] }
