[package]
name = "frame_rs"
version = "0.1.0"
edition = "2021"
publish = false

[dependencies]
anyhow = "1"
ethers-core = "2"
ethers-providers = "2"
reqwest = { version = "0.11", default-features = false, features = ["json"] }
serde_json = "1"
