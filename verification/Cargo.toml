[package]
name = "dtls_stream"
version = "0.1.0"
edition = "2021"
publish = false

[dependencies]
bytes = "1"
futures = "0.3"
log = "0.4"
openssl = "0.10"
tokio = { version = "1", features = ["net", "sync", "rt", "macros", "io-util", "time", "rt-multi-thread"] }
tokio-openssl = "0.6"
tokio-util = { version = "0.7", features = ["codec"] }
