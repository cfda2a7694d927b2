[package]
name = "wrpc_interface_http"
version = "0.1.0"
edition = "2021"
publish = false

[dependencies]
http = "=1.5.0"
http-body = "=1.1.0"
http-body-util = "=0.1.5"
bytes = "=1.12.1"
futures = "=0.3.34"
tokio = { version = "=1.54.1", features = ["sync", "rt", "macros"] }
tokio-stream = "=0.1.19"
anyhow = "=1.0.104"
wasmtime-wasi-http = "26"
