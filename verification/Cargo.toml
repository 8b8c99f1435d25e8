[package]
name = "fortress"
version = "0.1.0"
edition = "2021"
publish = false

[dependencies]
aes-gcm = "=0.10.3"
argon2 = "=0.5.3"
clap = { version = "=4.6.7", features = ["derive"] }
cli-clipboard = "=0.4.0"
log = "=0.4.34"
rand = "=0.9.5"
rpassword = "=7.5.4"
serde = { version = "=1.0.229", features = ["derive"] }
serde_json = "=1.0.154"
simplelog = "=0.12.2"
