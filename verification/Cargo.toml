[package]
name = "zello_client"
version = "0.1.0"
edition = "2021"
publish = false

[dependencies]
audiopus = "*"
base64 = "*"
serde_json = "*"
tokio = { version = "*", features = ["sync", "time", "rt", "net", "macros"] }
tokio-tungstenite = "*"
tungstenite = "*"
futures-util = "*"
crossbeam-channel = "*"
cpal = "*"
dotenvy = "*"
tracing = "*"
tracing-subscriber = { version = "*", features = ["env-filter", "fmt"] }
