[package]
name = "simple_oauth"
version = "0.1.0"
edition = "2021"
publish = false

[dependencies]
oauth2 = { version = "=5.0.0", default-features = false }
oauth2-reqwest = "=0.1.0-alpha.3"
reqwest = { version = "=0.13.5", default-features = false, features = ["json"] }
serde = { version = "=1.0.229", features = ["derive"] }
serde_json = "=1.0.154"
thiserror = "=2.0.21"
bon = "3.10.3"
