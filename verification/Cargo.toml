[package]
name = "ngrok_nodejs"
version = "0.1.0"
edition = "2021"
publish = false

[dependencies]
async-trait = "=0.1.92"
bytes = "=1.12.1"
futures = "=0.3.34"
futures-rustls = "=0.25.1"
lazy_static = "=1.5.1"
napi = { version = "=2.16.17", features = ["napi4", "tokio_rt"] }
napi-derive = "=2.16.13"
ngrok = "=0.14.0"
parking_lot = "=0.12.5"
regex = "=1.13.1"
tokio = { version = "=1.54.1", features = ["sync", "rt", "macros"] }
tracing = "=0.1.44"
tracing-subscriber = "=0.3.23"
url = "=2.5.8"
