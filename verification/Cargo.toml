[package]
name = "http_proxy"
version = "0.1.0"
edition = "2021"
publish = false

[dependencies]
base64 = "0.13"
http = "0.2"
hyper = { version = "0.14", features = ["server", "tcp", "http1", "http2"] }
lazy_static = "1.4"
parking_lot = "0.11"
prometheus = { version = "0.10", default-features = false }
snafu = "0.6"
tokio = { version = "1", features = ["macros", "rt-multi-thread"] }
tracing = "0.1"
tracing-log = "0.1"
tracing-subscriber = "0.2"
twilight-http = "0.4"
twilight-model = "0.4"
