[package]
name = "pulse_client"
version = "2.6.0"
edition = "2021"
publish = false

[dependencies]
bytes = "1"
futures-core = "0.3"
futures-util = { version = "0.3", default-features = false, features = ["std", "sink"] }
reqwest = { version = "0.12", default-features = false, features = ["json", "multipart", "rustls-tls", "stream"] }
serde = { version = "1", features = ["derive"] }
serde_json = "1"
tokio = { version = "1", features = ["net", "rt", "time"] }
tokio-tungstenite = { version = "0.26", features = ["connect"] }
