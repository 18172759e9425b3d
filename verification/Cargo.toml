[package]
name = "ymusic"
version = "0.1.0"
edition = "2021"
publish = false

[dependencies]
aes = "0.8"
anyhow = "1"
base64 = "0.22"
bytes = "1"
clap = { version = "4", features = ["derive"] }
ctr = "0.9"
dotenvy = "0.15"
hex = "0.4"
hmac = "0.12"
regex = "1"
reqwest = { version = "0.12", features = ["json"] }
serde_json = "1"
sha2 = "0.10"
tokio = { version = "1", features = ["macros", "rt-multi-thread"] }
