[package]
name = "resumable_fetch"
version = "0.1.0"
edition = "2021"
publish = false

[dependencies]
rand = "0.9"
reqwest = { version = "0.12", features = ["zstd"] }
tokio = { version = "1", features = ["macros", "rt-multi-thread"] }
