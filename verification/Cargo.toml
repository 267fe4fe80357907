[package]
name = "sealbox"
version = "0.1.0"
edition = "2021"
publish = false

[dependencies]
orion = "=0.17.15"
infer = "=0.22.0"
rand = "=0.8.8"
uuid = { version = "=1.27.0", features = ["v4"] }
chrono = "=0.4.45"
hyper = "=1.12.0"
axum = "=0.8.9"
bson = { version = "=3.1.0", features = ["serde"] }
serde = { version = "=1.0.229", features = ["derive"] }
