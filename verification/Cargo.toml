[package]
name = "securedash"
version = "0.1.0"
edition = "2021"
publish = false

[dependencies]
serde_json = { version = "1", features = ["preserve_order"] }
rmp-serde = "1"
serde = { version = "1", features = ["derive"] }
toml = "*"
time = { version = "0.3", features = ["serde"] }
anyhow = "1"
log = "0.4"
futures = "0.3"
embassy-sync = "*"
embedded-svc = "*"
esp-idf-svc = "*"
