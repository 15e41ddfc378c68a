[package]
name = "axum_cognito"
version = "0.1.0"
edition = "2021"
publish = false

[dependencies]
axum = "*"
futures-util = "*"
http = "*"
jsonwebtokens = "*"
jsonwebtokens-cognito = "*"
serde = { version = "*", features = ["derive"] }
serde_json = "*"
thiserror = "*"
tower = "*"
