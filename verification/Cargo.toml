[package]
name = "mc-scraper"
version = "0.1.0"
edition = "2021"
publish = false

[dependencies]
scraper = "=0.29.0"
url = "=2.5.8"
percent-encoding = "=2.3.2"
adler = "=1.0.2"
anyhow = "=1.0.104"
clap = { version = "=4.6.7", features = ["derive"] }
dotenv = "=0.15.0"
env_logger = "=0.11.11"
log = "=0.4.35"
futures = "=0.3.34"
once_cell = "=1.21.4"
tokio = { version = "=1.54.1", features = ["rt-multi-thread", "macros"] }
reqwest = { version = "=0.12.28", default-features = false, features = ["rustls-tls"] }
sqlx = { version = "=0.9.0", default-features = false, features = ["sqlite", "runtime-tokio", "migrate"] }
