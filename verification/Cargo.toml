[package]
name = "ampd"
version = "0.1.0"
edition = "2021"
publish = false

[dependencies]
async-trait = "0.1"
cosmos-sdk-proto = "0.16"
cosmrs = "0.11"
error-stack = { version = "0.3", features = ["eyre"] }
futures = "0.3"
tendermint = "0.28"
tendermint-rpc = { version = "0.28", features = ["websocket-client"] }
thiserror = "1"
tokio-stream = "0.1"
