[package]
name = "kbs"
version = "0.1.0"
edition = "2021"
publish = false

[dependencies]
actix-web = { version = "=4.18.1", default-features = false, features = ["cookies"] }
anyhow = "=1.0.104"
async-trait = "0.1"
base64 = "=0.21.7"
form_urlencoded = "=1.2.2"
hex = "=0.4.3"
jwt-simple = "=0.11.9"
kbs-types = "=0.18.0"
reqwest = { version = "=0.11.27", default-features = false, features = ["json", "cookies", "rustls-tls"] }
serde = { version = "=1.0.229", features = ["derive"] }
serde_json = "=1.0.154"
tokio = { version = "=1.54.1", features = ["fs", "rt", "sync"] }
