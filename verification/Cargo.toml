[package]
name = "email_clients"
version = "0.1.0"
edition = "2021"
publish = false

[dependencies]
async-trait = "0.1"
lettre = { version = "0.11", features = ["tokio1", "tokio1-native-tls"] }
log = "0.4"
reqwest = { version = "0.12", features = ["json"] }
secrecy = { version = "0.8", features = ["serde"] }
serde = { version = "1", features = ["derive"] }
thiserror = "1"
