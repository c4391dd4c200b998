[package]
name = "hpoint"
version = "0.1.0"
edition = "2021"
publish = false

[dependencies]
tokio = { version = "1", features = ["full"] }
tokio-postgres = "0.7"
postgres = "0.19"
bb8-postgres = "0.8"
serde = { version = "1", features = ["derive"] }
serde_json = "1"
serde_yaml = "0.9"
warp = "0.3"
tokio-tungstenite = "0.21"
futures = "0.3"
futures-util = "0.3"
structopt = "0.3"
thiserror = "1"
log = "0.4"
log4rs = "1"
bincode = "1"
url = "2"
chrono = "0.4"
