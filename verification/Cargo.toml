[package]
name = "bing_chat"
version = "0.1.0"
edition = "2021"
publish = false

[dependencies]
serde_json = "*"
uuid = { version = "*", features = ["v4"] }
tokio = { version = "*", default-features = false, features = ["rt-multi-thread", "macros", "sync"] }
futures = "*"
reqwest = { version = "*", default-features = false }
async-tungstenite = { version = "*", features = ["tokio-runtime"] }
