[package]
name = "deribit_websocket"
version = "0.1.0"
edition = "2021"
publish = false

[dependencies]
serde = { version = "=1.0.229", features = ["derive"] }
serde_json = "=1.0.154"
url = "=2.5.8"
tokio = { version = "=1.54.1", features = ["rt", "rt-multi-thread", "macros", "net", "sync", "time"] }
tokio-tungstenite = { version = "=0.30.0", features = ["rustls-tls-native-roots"] }
futures-util = "=0.3.34"
dotenv = "=0.15.0"
tracing = "=0.1.44"
tracing-subscriber = "=0.3.23"
rustls = { version = "=0.23.46", default-features = false, features = ["ring", "std"] }
thiserror = "=2.0.21"
