[package]
name = "geocore"
version = "0.1.0"
edition = "2021"
publish = false

[dependencies]
chrono = "*"
image = "*"
serde = { version = "*", features = ["derive"] }
serde_json = "*"
serde_urlencoded = "*"
reqwest = { version = "*", default-features = false }
warp = "*"
uuid = "*"
async-trait = "*"
log = "*"
