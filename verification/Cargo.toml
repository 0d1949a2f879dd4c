[package]
name = "acme_provision"
version = "0.1.0"
edition = "2021"
publish = false

[dependencies]
acme-micro = "*"
actix-cors = "*"
actix-files = "*"
actix-web = { version = "*", features = ["openssl"] }
anyhow = "*"
openssl = "*"
reqwest = "*"
serde = { version = "*", features = ["derive"] }
serde_json = "*"
time = { version = "*", features = ["parsing", "formatting"] }
