[package]
name = "proxy_retry"
version = "0.1.0"
edition = "2021"
publish = false

[dependencies]
tower = { version = "*", features = ["retry"] }
regex = "*"
http = "*"
http-body = "*"
http-body-util = "*"
bytes = "*"
futures = "*"
tokio = { version = "*", features = ["net"] }
socket2 = "*"
