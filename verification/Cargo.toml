[package]
name = "mcpg_backend_email"
version = "0.1.0"
edition = "2021"
publish = false

[dependencies]
async-imap = { version = "*", default-features = false, features = ["runtime-tokio"] }
async-trait = "0.1"
chrono = "0.4"
futures-util = "0.3"
lettre = { version = "0.11", default-features = false, features = ["builder", "smtp-transport", "tokio1-rustls-tls"] }
serde = { version = "1", features = ["derive"] }
serde_json = "1"
tokio = { version = "1", features = ["rt", "rt-multi-thread", "net", "time", "sync", "io-util"] }
tokio-rustls = { version = "0.26", default-features = false, features = ["ring", "tls12", "logging"] }
tracing = "0.1"
webpki-roots = "1"
