[package]
name = "pam_kv"
version = "0.1.0"
edition = "2021"
publish = false

[dependencies]
argon2 = "0.5"
balloon-hash = "0.4"
libc = "0.2"
password-hash = "0.5"
pbkdf2 = { version = "0.12", features = ["simple"] }
rand = "0.8"
reqwest = { version = "0.11", default-features = false, features = ["blocking"] }
scrypt = "0.11"
serde = { version = "1", features = ["derive"] }
serde_yaml = "0.9"
sha2 = "0.10"
strum = { version = "0.26", features = ["derive"] }
