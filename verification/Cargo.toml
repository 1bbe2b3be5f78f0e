[package]
name = "warp"
version = "0.1.0"
edition = "2021"
publish = false

[dependencies]
base64 = "=0.22.1"
percent-encoding = "=2.3.2"
headers = "=0.4.2"
http = "=1.5.0"
mime = "=0.3.17"
mime_guess = "=2.0.5"
bytes = "=1.12.1"
tungstenite = "=0.24.0"
tokio-tungstenite = "=0.24.0"
flate2 = "=1.1.10"
serde = "=1.0.229"
serde_json = "=1.0.154"
serde_urlencoded = "=0.7.1"
hyper = { version = "=1.12.0", features = ["server", "http1"] }
hyper-util = { version = "=0.1.21", features = ["tokio"] }
tokio = { version = "=1.54.1", features = ["rt-multi-thread", "macros", "fs", "io-util", "net"] }
futures = "=0.3.34"
futures-util = "=0.3.34"
http-body-util = "=0.1.5"
tokio-util = { version = "=0.7.20", features = ["io"] }
async-compression = { version = "=0.4.52", features = ["tokio", "gzip", "brotli", "deflate"] }
pin-project = "=1.1.13"
tower-service = "=0.3.3"
tracing = "=0.1.44"
tracing-futures = "=0.2.5"
log = "=0.4.35"
multiparty = { version = "=0.1.0", features = ["server", "futures03"] }
rustls-pki-types = "=1.15.1"
crossbeam-channel = "=0.5.17"
urlencoding = "=2.1.3"
