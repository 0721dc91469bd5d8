[package]
name = "wally_registry_auth"
version = "0.1.0"
edition = "2021"
publish = false

[dependencies]
anyhow = "1"
constant_time_eq = "0.1"
reqwest = { version = "0.11", default-features = false, features = ["json", "rustls-tls"] }
rocket = "0.5"
serde = { version = "1", features = ["derive"] }
