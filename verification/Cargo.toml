[package]
name = "verifit_auth"
version = "0.1.0"
edition = "2021"
publish = false

[dependencies]
bcrypt = "=0.19.3"
jsonwebtoken = { version = "=11.1.0", features = ["rust_crypto"] }
chrono = "=0.4.45"
sha2 = "=0.11.0"
serde_json = "=1.0.151"
serde = { version = "=1.0.229", features = ["derive"] }
axum = "=0.8.9"
tokio = { version = "=1.53.2", features = ["full"] }
lettre = "=0.11.23"
