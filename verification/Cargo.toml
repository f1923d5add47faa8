[package]
name = "defuscrypt"
version = "0.1.0"
edition = "2021"
publish = false

[dependencies]
anyhow = "1"
base64 = "0.21"
chacha20poly1305 = "0.10"
pbkdf2 = { version = "0.12", features = ["simple"] }
rand = "0.8"
serde = { version = "1", features = ["derive"] }
tokio = { version = "1", features = ["rt", "time", "macros"] }
zeroize = "1"
