[package]
name = "charizhard"
version = "0.1.0"
edition = "2021"
publish = false

[dependencies]
anyhow = "1"
base64 = "0.22"
embedded-svc = "*"
esp-idf-hal = "*"
esp-idf-svc = "*"
heapless = "0.8"
lazy_static = "1"
log = "0.4"
mime = "0.3"
once_cell = "1"
serde = { version = "1", features = ["derive"] }
serde_urlencoded = "0.7"
