[package]
name = "ppaass"
version = "0.1.0"
edition = "2021"
publish = false

[dependencies]
tokio-util = { version = "0.7", features = ["codec"] }
bytes = "1"
flate2 = "1"
url = "2"
uuid = { version = "1", features = ["v4"] }
chrono = { version = "0.4", features = ["serde"] }
tokio = { version = "1", features = ["full"] }
futures-util = { version = "0.3", features = ["sink"] }
tokio-stream = "0.1"
bincode = "1"
serde = { version = "1", features = ["derive"] }
toml = "0.8"
clap = { version = "4", features = ["derive"] }
httpcodec = "0.2"
bytecodec = "0.4"
socks5-impl = { version = "*", features = ["tokio"] }
socket2 = { version = "0.5", features = ["all"] }
tracing = "0.1"
tracing-subscriber = { version = "0.3", features = ["chrono"] }
tracing-appender = "0.2"
anyhow = "1"
rand = "0.8"
concurrent-queue = "2"
pretty-hex = "0.4"
