[package]
name = "fend_gemini"
version = "0.1.0"
edition = "2021"
publish = false

[dependencies]
url = "2"
percent-encoding = "2"
fend-core = "1"
rustls-pemfile = "1"
rustls = "0.20"
tokio-rustls = "0.23"
tokio = { version = "1", features = ["rt-multi-thread", "net", "io-util", "macros"] }
