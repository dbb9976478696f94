[package]
name = "nft_storage"
version = "0.1.0"
edition = "2021"
publish = false

[dependencies]
serde_json = "*"
thiserror = "*"

[dependencies.reqwest]
version = "*"
default-features = false
features = ["multipart"]
