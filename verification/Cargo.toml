[package]
name = "sophia"
version = "0.1.0"
edition = "2021"
publish = false

[dependencies]
rand = "0.8"
chrono = "0.4"
unicode-width = "0.1"
tokio = { version = "1", features = ["full"] }
quinn = "0.10"
rustls = "0.21"
rustls-pemfile = "1"
serde = { version = "1", features = ["derive"] }
serde_json = "1"
clap = { version = "4", features = ["derive"] }
crossterm = "0.25"
tui = "0.19"
url = "2"
trust-dns-resolver = "0.23"
whoami = "1"
env_logger = "0.10"
log = "0.4"
async-trait = "0.1"
futures-util = "0.3"
thiserror = "1"
derive_more = "0.99"
