[package]
name = "taunote_llm"
version = "0.1.0"
edition = "2021"
publish = false

[dependencies]
serde_json = "*"
tokio = { version = "*", features = ["rt-multi-thread", "macros", "sync", "time", "net", "fs"] }
reqwest = { version = "*", default-features = false, features = ["json"] }
