[package]
name = "storefront"
version = "0.1.0"
edition = "2021"
publish = false

[dependencies]
jsonwebtoken = "9"
serde_json = "1"
bcrypt = "0.15"
chrono = "0.4"
serde = { version = "1", features = ["derive"] }
axum = "0.8"
tokio = { version = "1", features = ["rt-multi-thread", "macros"] }
bigdecimal = "0.4"
dotenvy = "0.15"
