[package]
name = "skyline"
version = "0.1.0"
edition = "2021"
publish = false

[dependencies]
anyhow = "1"
atrium-api = "0.24"
bsky-sdk = { version = "=0.1.15", default-features = false, features = ["default-client", "config-toml"] }
chrono = "0.4"
futures-util = "0.3"
http = "1"
image = { version = "0.25", default-features = false, features = ["png", "jpeg"] }
ipld-core = "0.4"
log = "0.4"
lru = "0.12"
ratatui = "0.29"
ratatui-image = { version = "3.0", default-features = false, features = ["crossterm"] }
reqwest = { version = "0.12", default-features = false, features = ["rustls-tls"] }
secrecy = "0.10"
serde = { version = "1", features = ["derive"] }
serde_json = "1"
simplelog = "0.12"
textwrap = "0.16"
thiserror = "1"
tokio = { version = "1", features = ["full"] }
tokio-tungstenite = { version = "0.24", features = ["rustls-tls-webpki-roots"] }
url = "2"
