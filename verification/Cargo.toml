[package]
name = "newsletter"
version = "0.1.0"
edition = "2021"
publish = false

[dependencies]
lettre = { version = "*", default-features = false, features = ["smtp-transport", "builder", "hostname", "pool", "rustls-tls"] }
uuid = { version = "*", features = ["v4"] }
axum = "*"
axum-extra = { version = "*", features = ["cookie"] }
tokio = { version = "*", features = ["rt-multi-thread", "macros", "net"] }
sqlx = { version = "*", default-features = false, features = ["runtime-tokio", "sqlite", "chrono"] }
serde = { version = "*", features = ["derive"] }
serde_json = "*"
toml = "*"
clap = { version = "*", features = ["derive"] }
chrono = { version = "*", features = ["serde"] }
jsonwebtoken = "*"
bcrypt = "*"
validator = { version = "*", features = ["derive"] }
rand = "*"
time = "*"
