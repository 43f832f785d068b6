[package]
name = "mdbook-rss"
version = "0.1.0"
edition = "2021"
publish = false

[dependencies]
anyhow = "1"
clap = "2"
env_logger = "*"
globset = "0.4"
gray_matter = "*"
log = "0.4"
markdown = "*"
mdbook = { version = "0.4", default-features = false }
regex = "1"
rss = "2"
serde_json = "1"
url = "2"
