[package]
name = "paste_rs"
version = "0.1.0"
edition = "2021"
publish = false

[dependencies]
clap = { version = "3.2", features = ["derive"] }
reqwest = "0.11"
tokio = { version = "1", features = ["macros", "rt-multi-thread"] }
