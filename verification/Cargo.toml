[package]
name = "kubeclient"
version = "0.1.0"
edition = "2021"
publish = false

[dependencies]
base64 = "*"
pem-parser = "*"
reqwest = { version = "*", default-features = false, features = ["blocking", "json", "rustls-tls"] }
serde = { version = "*", features = ["derive"] }
serde_json = "*"
serde_yaml = "*"
