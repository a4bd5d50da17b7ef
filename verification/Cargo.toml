[package]
name = "unienc"
version = "0.1.0"
edition = "2021"
publish = false

[dependencies]
tokio = { version = "1", default-features = false, features = ["sync"] }
futures = "0.3"
thiserror = "2"
bincode = "2"
muxide = "*"
windows-core = "*"
