[package]
name = "shopping_kit"
version = "0.1.0"
edition = "2021"
publish = false

[dependencies]
base64 = "=0.22.1"
sha2 = "=0.10.9"
rand = "=0.9.5"
url = "=2.5.8"
serde = { version = "=1.0.229", features = ["derive"] }
serde_json = "=1.0.154"
shell-words = "=1.1.1"
scraper = "=0.29.0"
ego-tree = "=0.11.1"
thiserror = "=2.0.21"
tokio = { version = "=1.54.1", features = ["process", "rt", "macros"] }
toml = "=1.1.8"
directories = "=6.0.0"
keyring = "=4.2.0"
