[package]
name = "tvc_app"
version = "0.1.0"
edition = "2021"
publish = false

[dependencies]
axum = "0.8.9"
base64 = "0.22.1"
clap = { version = "4.5.61", features = ["derive"] }
http-body-util = "0.1.5"
p256 = { version = "0.13.2", features = ["ecdsa"] }
qos_hex = "0.15.1"
qos_json = "0.15.1"
qos_p256 = "0.15.1"
rand = "0.9.5"
reqwest = { version = "0.12.28", default-features = false, features = ["rustls-tls"] }
serde = { version = "1.0.229", features = ["derive"] }
serde_json = "1.0.154"
sha2 = "0.10.9"
tokio = { version = "1.54.1", features = ["full"] }
tower = { version = "0.5.3", features = ["util"] }
tower-http = { version = "0.6.11", features = ["trace"] }
tracing = "0.1.44"
tracing-subscriber = { version = "0.3.23", features = ["env-filter"] }
turnkey_api_key_stamper = "0.17.1"
ureq = "2.12.1"
