[package]
name = "serverwitch"
version = "0.1.0"
edition = "2021"
publish = false

[dependencies]
clap = { version = "4", features = ["derive"] }
crossterm = { version = "0.27", features = ["event-stream"] }
futures-channel = "0.3"
futures-util = "0.3"
log = "0.4"
ratatui = "0.26"
serde = { version = "1", features = ["derive"] }
serde_json = "1"
simple-logging = "2"
thiserror = "1"
tokio = { version = "1", features = ["fs", "macros", "process", "rt-multi-thread", "time"] }
tokio-stream = { version = "0.1", features = ["time"] }
tokio-tungstenite = { version = "0.21", features = ["rustls-tls-webpki-roots"] }
url = "2"
uuid = { version = "1", features = ["v4"] }
