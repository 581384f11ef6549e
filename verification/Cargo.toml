[package]
name = "atmb-us-non-cmra"
version = "0.1.0"
edition = "2021"
publish = false

[dependencies]
scraper = "*"
regex = "1"
serde_json = "1"
csv = "1"
reqwest = { version = "0.12", default-features = false, features = ["json", "rustls-tls"] }
tokio = { version = "1", features = ["rt-multi-thread", "macros", "time"] }
futures = "0.3"
log = "0.4"
color-eyre = "0.6"
tracing-subscriber = { version = "0.3", features = ["env-filter"] }
