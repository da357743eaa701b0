[package]
name = "hudsucker_ffi"
version = "0.1.0"
edition = "2021"
publish = false

[dependencies]
getrandom = "0.2"
hex = "0.4"
http = "1"
hudsucker = "*"
hyper-tls = "0.6"
hyper-util = { version = "0.1", features = ["client-legacy", "http1", "http2", "tokio"] }
once_cell = "1"
rand = "0.8"
rcgen = { version = "0.13", features = ["x509-parser"] }
rustls = "0.23"
time = "0.3"
tokio = { version = "1", features = ["rt-multi-thread"] }
webpki-roots = "0.26"
