[package]
name = "speedgateway"
version = "0.1.0"
edition = "2021"
publish = false

[dependencies]
axum = { version = "*", features = ["ws"] }
bytes = "*"
futures-util = "*"
http-body-util = "*"
hyper = { version = "*", features = ["full"] }
hyper-rustls = { version = "*", default-features = false, features = ["http1", "http2", "native-tokio", "ring", "tls12", "logging"] }
hyper-util = { version = "*", features = ["client-legacy", "http1", "http2", "tokio"] }
tokio = { version = "*", features = ["full"] }
tokio-tungstenite = { version = "*", features = ["rustls-tls-native-roots"] }
tower-http = { version = "*", features = ["compression-gzip", "timeout"] }
tracing = "*"
tracing-subscriber = "*"
url = "*"
