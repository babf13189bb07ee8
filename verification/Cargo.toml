[package]
name = "docauth"
version = "0.1.0"
edition = "2021"
publish = false

[dependencies]
rusqlite = { version = "*", features = ["bundled"] }
serde_json = "1"
sha2 = "0.10"
aes-gcm = "0.10"
base64 = "0.13"
rand = "0.8"
local-ip-address = "*"
