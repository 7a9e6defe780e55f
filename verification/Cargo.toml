[package]
name = "fusion_drive"
version = "0.1.0"
edition = "2021"
publish = false

[dependencies]
borsh = "=0.10.4"
blake3 = { version = "=1.8.7", features = ["pure"] }
base64 = "=0.21.7"
bs58 = "=0.4.0"
qrcode-generator = "=4.1.9"
serde = { version = "=1.0.229", features = ["derive"] }
serde_json = "=1.0.154"
tide = "=0.16.0"
async-std = { version = "=1.13.2", features = ["attributes"] }
tokio = { version = "=1.54.1", features = ["full"] }
smol = "=1.3.0"
lazy_static = "=1.5.1"
once_cell = "=1.21.4"
log = "=0.4.35"
femme = "=2.2.1"
anyhow = "=1.0.104"
