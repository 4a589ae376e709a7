[package]
name = "universal-openai-rs"
version = "0.1.0"
edition = "2021"
publish = false

[dependencies]
serde = { version = "1", features = ["derive"] }
serde_json = "1"
reqwest = { version = "0.12", default-features = false, features = ["json", "stream", "multipart"] }
tokio = { version = "1", features = ["time", "rt", "macros"] }
futures-util = "0.3"
futures-core = "0.3"
async-stream = "0.3"
httpdate = "1"
schemars = "0.8"
thiserror = "*"
