[package]
name = "spotatui"
version = "0.1.0"
edition = "2021"
publish = false

[dependencies]
base64 = "=0.22.1"
open = "=5.4.4"
rand = "=0.8.8"
reqwest = { version = "=0.12.28", default-features = false, features = ["blocking", "rustls-tls"] }
serde_json = "=1.0.151"
sha2 = "=0.10.9"
tokio = { version = "=1.53.2", features = ["rt", "time", "sync"] }
urlencoding = "=2.1.3"
librespot-core = "=0.7.1"
librespot-playback = { version = "=0.7.1", default-features = false }
