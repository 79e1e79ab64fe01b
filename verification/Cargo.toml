[package]
name = "seqlink"
version = "0.1.0"
edition = "2021"
publish = false

[dependencies]
clap = { version = "*", features = ["derive"] }
serde = { version = "*", features = ["derive"] }
serial2-tokio = "*"
tokio = { version = "*", features = ["rt-multi-thread", "macros", "sync", "time"] }
