[package]
name = "login_core"
version = "0.1.0"
edition = "2021"
publish = false

[dependencies]
bcrypt = "*"
email_address = "*"
axum = "*"
http = "*"
serde = { version = "*", features = ["derive"] }
sqlx = { version = "*", features = ["postgres", "runtime-tokio"] }
tower-cookies = "*"
anyhow = "*"
tracing = "*"
