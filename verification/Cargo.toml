[package]
name = "irc-sitz-rs"
version = "2.0.0"
edition = "2021"
publish = false

[dependencies]
anyhow = "1"
byteorder = "1"
flume = "0.11"
futures = "0.3"
hound = "3"
irc = { version = "1", default-features = false, features = ["ctcp", "tls-rust"] }
itertools = "0.12"
lazy_static = "1"
log = "0.4"
poise = "0.6"
pretty_env_logger = "0.5"
rand = "0.9"
regex = "1"
reqwest = { version = "0.12", default-features = false, features = ["rustls-tls"] }
rubato = "0.15"
rustls = { version = "0.23", default-features = false, features = ["ring", "std", "logging", "tls12"] }
scraper = "0.20"
serde = { version = "1", features = ["derive"] }
serde_json = "1"
serde_regex = "1"
symphonia = { version = "0.5", features = ["all"] }
tokio = { version = "1", features = ["full"] }
tokio-util = { version = "0.7", features = ["io-util", "rt"] }
toml = "0.8"
youtube_dl = { version = "0.10", default-features = false, features = ["tokio", "downloader-rustls-tls"] }
