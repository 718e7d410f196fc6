[package]
name = "ivms101"
version = "0.1.0"
edition = "2021"
publish = false

[dependencies]
chrono = { version = "=0.4.45", features = ["serde"] }
iso3166-1 = "=1.0.1"
lei = "=0.2.5"
serde = { version = "*", features = ["derive"] }
serde_json = "*"
thiserror = "*"
