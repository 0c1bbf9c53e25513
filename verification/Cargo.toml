[package]
name = "web3_proxy"
version = "0.1.0"
edition = "2021"
publish = false

[dependencies]
anyhow = "1"
chrono = "0.4"
ethers = { version = "2", default-features = false, features = ["ws"] }
hashbrown = "0.13"
log = "0.4"
metered = "0.9"
serde = { version = "1", features = ["derive"] }
serde_json = "1"
rand = "0.8"
tokio = { version = "1", features = ["rt", "time", "macros"] }
