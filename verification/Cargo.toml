[package]
name = "companion"
version = "0.1.0"
edition = "2021"
publish = false

[dependencies]
rand = "0.9.5"
serde = { version = "1", features = ["derive"] }
serde_json = "1"
egui = "0.32.3"
egui-phosphor = "*"
env_logger = "0.11"
log = "0.4"
dirs = "6"
tempfile = "3"
thiserror = "2"
url = "2"
reqwest = { version = "0.12", default-features = false, features = ["blocking", "json", "rustls-tls"] }
tungstenite = { version = "0.26.2", features = ["rustls-tls-webpki-roots"] }
tokio = { version = "1", features = ["rt-multi-thread"] }
buttplug_client = "10.0.3"
buttplug_core = "10.0.3"
buttplug_transport_websocket_tungstenite = "10.0.3"
