[package]
name = "ortie"
version = "0.1.0"
edition = "2021"
publish = false

[dependencies]
anyhow = "=1.0.104"
clap = { version = "=4.6.7", features = ["derive"] }
humantime = "=2.4.0"
io-oauth = "=0.3.0"
log = "=0.4.35"
pimalaya-cli = { version = "=0.2.6", default-features = false, features = ["terminal"] }
pimalaya-config = { version = "=0.2.1", default-features = false, features = ["secret", "toml"] }
pimalaya-stream = { version = "=0.3.0", default-features = false, features = ["rustls-ring"] }
secrecy = { version = "=0.10.3", features = ["serde"] }
serde = { version = "=1.0.229", features = ["derive"] }
serde_json = "=1.0.154"
url = { version = "=2.5.8", features = ["serde"] }
