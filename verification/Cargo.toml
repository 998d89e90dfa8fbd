[package]
name = "rustiles"
version = "0.1.0"
edition = "2021"
publish = false

[dependencies]
anyhow = "*"
env_logger = "*"
flate2 = "*"
geo-types = "*"
log = "*"
mvt-reader = "*"
serde = { version = "*", features = ["derive"] }
serde_json = "*"
sqlite = "*"
tiny-skia = "*"
