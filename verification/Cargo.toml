[package]
name = "gqlforum"
version = "0.1.0"
edition = "2021"
publish = false

[dependencies]
hmac = "=0.12.1"
sha2 = "=0.10.9"
base64 = "=0.13.1"
argon2 = "=0.4.1"
tokio = { version = "=1.54.1", features = ["macros", "rt-multi-thread"] }
axum = "=0.5.17"
axum-extra = { version = "=0.3.7", features = ["cookie"] }
async-graphql = { version = "=4.0.16", features = ["time"] }
async-graphql-axum = "=4.0.16"
sqlx = { version = "=0.6.3", features = ["runtime-tokio-rustls", "sqlite", "time"] }
serde = { version = "=1.0.229", features = ["derive"] }
serde_json = "=1.0.154"
cookie = "=0.16.2"
nanoid = "=0.4.0"
config = { version = "=0.13.4", default-features = false, features = ["toml"] }
tracing = { version = "=0.1.44", features = ["log"] }
tracing-subscriber = { version = "=0.3.23", features = ["env-filter"] }
tower = "=0.4.13"
tower-http = { version = "=0.3.5", features = ["fs", "compression-full", "trace"] }
hyper = "=0.14.32"
