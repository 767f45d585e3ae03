[package]
name = "rmcp_typescript"
version = "0.1.0"
edition = "2021"
publish = false

[dependencies]
rmcp = { version = "0.1", features = ["client", "transport-sse", "transport-io"] }
serde_json = "1"
tokio = { version = "1", features = ["net", "io-std", "rt"] }
reqwest = { version = "0.12", default-features = false }
napi = { version = "2", features = ["napi4", "tokio_rt", "serde-json"] }
napi-derive = "2"
