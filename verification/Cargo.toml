[package]
name = "catfacts"
version = "0.1.0"
edition = "2021"
publish = false

[dependencies]
chrono = "=0.4.45"
serde = { version = "=1.0.229", features = ["derive"] }
anyhow = "=1.0.104"
tokio = { version = "=1.53.2", features = ["macros", "rt-multi-thread", "sync", "time", "net"] }
axum = "=0.8.9"
lettre = { version = "=0.11.23", default-features = false, features = ["smtp-transport", "builder", "hostname", "tokio1", "tokio1-rustls-tls"] }
libsql-client = { version = "=0.33.4", default-features = false, features = ["reqwest_backend"] }
