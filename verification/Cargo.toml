[package]
name = "argon2derive"
version = "0.1.0"
edition = "2021"
publish = false

[dependencies]
anyhow = "1"
argon2-kdf = "1"
base64 = "0.21"
bech32 = "0.9"
clap = { version = "4", features = ["derive"] }
directories = "5"
hex = "0.4"
rpassword = "7"
serde = { version = "1", features = ["derive"] }
toml = "0.8"
x25519-dalek = { version = "2", features = ["static_secrets"] }
