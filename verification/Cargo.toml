[package]
name = "yapm"
version = "0.1.0"
edition = "2021"
publish = false

[dependencies]
clap = { version = "4", features = ["derive"] }
decompress = "*"
thiserror = "1"
tokio = { version = "1", features = ["io-util", "macros", "process", "rt", "sync"] }
