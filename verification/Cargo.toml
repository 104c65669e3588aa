[package]
name = "tohum"
version = "0.1.0"
edition = "2021"
publish = false

[dependencies]
anyhow = "=1.0.104"
clap = "=4.6.7"
colored = "=2.2.0"
dirs = "=5.0.1"
flate2 = "=1.1.10"
indicatif = "=0.17.11"
names = { version = "=0.14.0", default-features = false }
regex = "=1.13.1"
reqwest = { version = "=0.12.28", default-features = false, features = ["rustls-tls"] }
semver = { version = "=1.0.28", features = ["serde"] }
serde = { version = "=1.0.229", features = ["derive"] }
serde_json = "=1.0.154"
tar = "=0.4.46"
tempfile = "=3.27.0"
tera = "=1.20.1"
tokio = { version = "=1.54.1", features = ["macros", "rt-multi-thread"] }
walkdir = "=2.5.0"
