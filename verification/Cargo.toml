[package]
name = "rpa_app"
version = "0.1.0"
edition = "2021"
publish = false

[dependencies]
chrono = "0.4"
lettre = { version = "0.11", default-features = false, features = ["smtp-transport", "builder", "rustls-tls"] }
serde = { version = "1", features = ["derive"] }
serde_json = "1"
tokio = { version = "1", features = ["rt-multi-thread", "macros", "time"] }
