[package]
name = "authcore"
version = "0.1.0"
edition = "2021"
publish = false

[dependencies]
argon2 = "0.5"
getrandom = "0.2"
hmac = "0.12"
sha2 = "0.10"
subtle = "2"
cookie = "0.18"
hyper = { version = "0.14", features = ["server", "http1", "tcp"] }
serde = { version = "1", features = ["derive"] }
serde_urlencoded = "0.7"
slog = "2"
slog-async = "2"
slog-term = "2"
tera = "1"
tokio = { version = "1", features = ["rt", "net", "macros"] }
tokio-postgres = "0.7"
uuid = { version = "1", features = ["v4"] }
