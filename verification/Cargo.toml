[package]
name = "smallbird-local"
version = "0.1.0"
edition = "2021"
publish = false

[dependencies]
base64 = "=0.22.1"
cpal = "=0.15.3"
crossbeam-channel = "=0.5.17"
futures-util = "=0.3.34"
http = "=1.5.0"
keyring = "=3.6.3"
log = "=0.4.35"
reqwest = { version = "=0.12.28", default-features = false, features = ["blocking", "json", "multipart", "stream", "rustls-tls"] }
ring = "=0.17.14"
rodio = { version = "=0.20.1", default-features = false }
rustls = { version = "=0.23.46", default-features = false, features = ["ring", "std"] }
serde = { version = "=1.0.229", features = ["derive"] }
serde_json = "=1.0.154"
tungstenite = { version = "=0.26.2", features = ["rustls-tls-webpki-roots"] }
