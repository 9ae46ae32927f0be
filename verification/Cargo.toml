[package]
name = "seamui"
version = "0.1.0"
edition = "2021"
publish = false

[dependencies]
anyhow = "=1.0.104"
directories-next = "=2.0.0"
env_logger = "=0.10.2"
image = { version = "=0.24.9", default-features = false, features = ["jpeg", "png"] }
load_image = "=3.5.0"
log = "=0.4.34"
md5 = "=0.7.0"
reqwest = { version = "=0.11.27", default-features = false, features = ["rustls-tls"] }
serde = { version = "=1.0.229", features = ["derive"] }
serde_json = "=1.0.154"
tokio = { version = "=1.54.1", features = ["rt", "macros", "sync", "time", "fs", "process"] }
