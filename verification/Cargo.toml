[package]
name = "actix_web_template"
version = "0.1.0"
edition = "2021"
publish = false

[dependencies]
actix-web = "4"
anyhow = "1"
argon2 = "=0.5.3"
base64 = "=0.23.1"
chrono = "*"
config = "*"
dotenvy = "*"
hmac = "=0.13.0"
rand = "=0.8.8"
secrecy = { version = "*", features = ["serde"] }
serde = { version = "1", features = ["derive"] }
sha2 = "=0.11.0"
shellexpand = "*"
sqlx = { version = "*", default-features = false, features = ["postgres", "runtime-tokio", "uuid", "chrono"] }
thiserror = "*"
tokio = { version = "1", features = ["macros", "rt-multi-thread"] }
tracing = "*"
unicode-segmentation = "=1.13.3"
urlencoding = "=2.1.3"
uuid = { version = "*", features = ["v4"] }
validator = "=0.21.0"
