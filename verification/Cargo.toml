[package]
name = "invoke_http"
version = "0.1.0"
edition = "2021"
publish = false

[dependencies]
serde_json = "*"
url = "*"
portpicker = "*"
hyper = { version = "*", features = ["server", "http1"] }
http-body-util = "*"
tokio = { version = "*", features = ["rt", "rt-multi-thread", "net", "sync", "macros"] }
log = "*"
anyhow = "*"
