[package]
name = "bm2"
version = "0.4.0"
edition = "2021"
publish = false

[dependencies]
anyhow = "=1.0.104"
cfg-if = "=0.1.10"
console = "=0.10.3"
dialoguer = "=0.5.1"
dirs = "=2.0.2"
indicatif = "=0.14.0"
lazy_static = "=1.5.1"
reqwest = { version = "=0.10.10", features = ["blocking", "json", "cookies"] }
semver = { version = "=0.9.0", features = ["serde"] }
serde = { version = "=1.0.229", features = ["derive"] }
serde_json = "=1.0.154"
structopt = "=0.3.26"
url = { version = "=2.5.8", features = ["serde"] }
walkdir = "=2.5.0"
zip = { version = "=0.5.13", default-features = false, features = ["deflate"] }

[dev-dependencies]
regex = "=1.13.1"
