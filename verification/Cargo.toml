[package]
name = "nebo_sdk"
version = "0.1.0"
edition = "2021"
publish = false

[dependencies]
serde_json = "1"
tokio = { version = "1", features = ["macros", "rt-multi-thread", "net", "signal", "sync"] }
tokio-stream = { version = "0.1", features = ["net"] }
tonic = "0.12"
async-trait = "0.1"
thiserror = "1"
