[package]
name = "repman"
version = "0.1.0"
edition = "2021"
publish = false

[dependencies]
anyhow = "1"
clap = { version = "4", features = ["derive"] }
colored = "2"
dirs = "5"
tokio = { version = "1", features = ["macros", "process", "rt-multi-thread"] }
