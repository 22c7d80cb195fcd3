[package]
name = "user_directory"
version = "0.1.0"
edition = "2021"
publish = false

[dependencies]
argon2 = "*"
rand = "*"
native-tls = "*"
rustbreak = { version = "*", features = ["ron_enc"] }
serde = { version = "*", features = ["derive"] }
log = "*"
simplelog = "*"
