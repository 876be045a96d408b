[package]
name = "fetch_variant"
version = "0.1.0"
edition = "2021"
publish = false

[dependencies]
clap = { version = "=4.6.7", features = ["derive"] }
futures = "=0.3.34"
log = "=0.4.34"
lz4 = "=1.28.1"
serde = { version = "1", features = ["derive"] }
snafu = "=0.8.9"
tokio = { version = "=1.54.1", features = ["rt-multi-thread", "fs"] }
tokio-util = { version = "=0.7.20", features = ["compat", "io-util"] }
toml = "*"
tough = "=0.24.0"
url = { version = "=2.5.8", features = ["serde"] }
