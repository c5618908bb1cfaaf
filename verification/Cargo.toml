[package]
name = "ddns_agent"
version = "0.1.0"
edition = "2021"
publish = false

[dependencies]
local-ip-address = "*"
rustls = { version = "*", default-features = false, features = ["ring", "logging", "std", "tls12"] }
webpki-roots = "*"
serde = { version = "*", features = ["derive"] }
toml = "*"
