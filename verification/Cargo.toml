[package]
name = "parrun"
version = "0.1.0"
edition = "2021"
publish = false

[dependencies]
clap = { version = "*", features = ["derive"] }
colored = "*"
ctrlc = "*"
futures = "*"
tokio = { version = "*", features = ["rt-multi-thread", "macros", "process", "io-util", "sync"] }
