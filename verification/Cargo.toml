[package]
name = "scryfall_rs"
version = "0.1.0"
edition = "2021"
publish = false

[dependencies]
serde_json = "1"
url = "2"
urlencoding = "2"
reqwest = { version = "0.12", default-features = false }
tokio = { version = "1", default-features = false, features = ["rt-multi-thread", "macros"] }
