[package]
name = "mastodon_sitemap"
version = "0.1.0"
edition = "2021"
publish = false

[dependencies]
chrono = "=0.4.45"
megalodon = "=1.3.0"
sitewriter = "=1.0.5"
tokio = { version = "=1.53.2", features = ["rt-multi-thread", "macros"] }
url = "=2.5.8"
