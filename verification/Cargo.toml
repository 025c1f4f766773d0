[package]
name = "backconnectsocks5"
version = "0.1.0"
edition = "2021"
publish = false

[dependencies]
anyhow = "1"
base64 = "0.21"
bstr = "1"
dotenv = "0.15"
env_logger = "0.10"
log = "0.4"
rand = "0.8"
reqwest = { version = "0.11", default-features = false, features = ["json"] }
serde = { version = "1", features = ["derive"] }
serde_json = "1"
structopt = "0.3"
tokio = { version = "1", features = ["full"] }
tokio-util = "0.7"
warp = { version = "0.3", default-features = false }
