[package]
name = "fits"
version = "0.1.0"
edition = "2021"
publish = false

[dependencies]
rusqlite = { version = "=0.40.2", features = ["bundled"] }
keyring = { version = "=3.6.3", default-features = false }
chrono = { version = "=0.4.45", default-features = false, features = ["clock"] }
toml = "=1.1.7"
serde = { version = "=1.0.229", features = ["derive"] }
reqwest = { version = "=0.12.28", default-features = false, features = ["json", "multipart", "rustls-tls"] }
