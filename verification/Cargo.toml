[package]
name = "taurus"
version = "0.1.0"
edition = "2021"
publish = false

[dependencies]
async-trait = "=0.1.92"
futures-util = "=0.3.34"
quick-xml = { version = "=0.42.0", features = ["serialize"] }
reqwest = { version = "=0.12.28", default-features = false, features = ["json", "stream", "rustls-tls"] }
scraper = "=0.29.0"
serde = { version = "=1.0.229", features = ["derive"] }
serde_json = "=1.0.154"
thiserror = "=2.0.21"
tokio = { version = "=1.54.1", features = ["net", "rt-multi-thread", "macros", "sync"] }
url = "=2.5.8"
