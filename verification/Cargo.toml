[package]
name = "gatewayz_desktop"
version = "0.1.0"
edition = "2021"
publish = false

[dependencies]
url = "2"
serde_json = "1"
serde = { version = "1", features = ["derive"] }
log = "0.4"
env_logger = "0.11"
hostname = "0.4"
sys-info = "0.9"
open = "5"
