[package]
name = "nodegaze"
version = "0.1.0"
edition = "2021"
publish = false

[dependencies]
aes-gcm = "0.10"
anyhow = "1"
async-stream = "0.3"
async-trait = "0.1"
axum = "0.8"
base64 = "0.22"
bcrypt = "*"
bitcoin = "0.32"
chrono = { version = "0.4", features = ["serde"] }
cln-grpc = "*"
dotenvy = "0.15"
expanduser = "1"
futures = "0.3"
hex = "0.4"
lightning = "*"
rand = "0.8"
reqwest = { version = "0.12", default-features = false, features = ["json", "rustls-tls"] }
serde = { version = "1", features = ["derive"] }
serde_json = "1"
sqlx = { version = "0.8", default-features = false, features = ["runtime-tokio", "sqlite", "chrono"] }
tokio = { version = "1", features = ["full"] }
tokio-stream = "0.1"
tonic = "*"
tonic_lnd = "*"
tracing = "0.1"
uuid = { version = "1", features = ["v7"] }
validator = "*"
