[package]
name = "moshi_client"
version = "0.1.0"
edition = "2021"
publish = false

[dependencies]
ogg = { version = "=0.9.2", features = ["async"] }
opus = "=0.2.1"
anyhow = "=1.0.104"
clap = { version = "=4.6.7", features = ["derive"] }
futures-util = "=0.3.34"
native-tls = "=0.2.18"
tokio = { version = "=1.53.2", features = ["rt-multi-thread", "macros", "io-util", "time", "net", "sync"] }
tokio-tungstenite = { version = "=0.30.0", features = ["native-tls"] }
tracing = "=0.1.44"
url = "=2.5.8"
