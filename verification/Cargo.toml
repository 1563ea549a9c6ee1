[package]
name = "downcida"
version = "0.1.0"
edition = "2021"
publish = false

[dependencies]
indicatif = "0.17"
reqwest = { version = "0.12", features = ["json"] }
serde_json = "1"
tokio = { version = "1", features = ["macros", "rt-multi-thread", "time"] }
