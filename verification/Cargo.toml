[package]
name = "github_tray"
version = "0.1.0"
edition = "2021"
publish = false

[dependencies]
url = { version = "2", features = ["serde"] }
reqwest = { version = "0.12", default-features = false, features = ["rustls-tls"] }
rustls = { version = "0.23", default-features = false, features = ["ring", "std", "tls12", "logging"] }
serde = { version = "1", features = ["derive"] }
serde_json = "1"
thiserror = "2"
objc2 = "0.6"
objc2-app-kit = "0.3"
objc2-foundation = "0.3"

[dev-dependencies]
http = "1"
