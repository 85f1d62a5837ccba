[package]
name = "kameloso"
version = "0.1.0"
edition = "2021"
publish = false

[dependencies]
serde_json = "=1.0.151"
tokio = { version = "=1.53.2", features = ["full"] }
serde = { version = "=1.0.229", features = ["derive"] }
log = "=0.4.34"
env_logger = "=0.11.11"
clap = { version = "=4.6.7", features = ["derive"] }
local-ip-address = "=0.6.13"
qrcode = { version = "=0.14.1", default-features = false }
uuid = { version = "=1.27.0", features = ["v4"] }
futures = "=0.3.34"
warp = { version = "=0.4.3", features = ["multipart", "server"] }
