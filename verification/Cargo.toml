[package]
name = "aliyun_sls"
version = "0.1.0"
edition = "2021"
publish = false

[dependencies]
hmac = "0.12"
sha1 = "0.10"
md5 = "0.7"
hex = "0.4"
base64 = "0.22"
lz4_flex = "*"
miniz_oxide = "*"
blake3 = "*"
chrono = "0.4"
tokio = { version = "1", features = ["rt", "sync", "time", "macros"] }
tracing = "0.1"
tracing-subscriber = { version = "0.3", features = ["registry"] }
