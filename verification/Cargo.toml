[package]
name = "llama_stream"
version = "0.1.0"
edition = "2021"
publish = false

[dependencies]
serde_json = "=1.0.154"
wasmedge-wasi-nn = "=0.8.0"
