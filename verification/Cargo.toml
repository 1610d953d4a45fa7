[package]
name = "shuttlings_cch24"
version = "0.1.0"
edition = "2021"
publish = false

[dependencies]
axum = { version = "0.7", features = ["macros"] }
axum-extra = { version = "0.9", features = ["typed-header"] }
axum-macros = "0.4"
cargo-manifest = "*"
chrono = { version = "0.4", features = ["serde"] }
html-escape = "0.2"
http = "1"
itertools = "0.13"
jsonwebtoken = "9"
leaky-bucket = "1"
serde = { version = "1", features = ["derive"] }
serde_json = "1"
serde_yaml = "0.9"
shuttle-axum = "0.49"
shuttle-runtime = "0.49"
shuttle-shared-db = { version = "0.49", features = ["postgres", "sqlx"] }
sqlx = { version = "0.8", default-features = false, features = ["runtime-tokio", "postgres", "uuid", "chrono", "migrate"] }
tokio = { version = "1", features = ["full"] }
toml = "0.8"
tower = "0.5"
tower-cookies = "0.10"
tower-http = { version = "0.6", features = ["fs", "trace", "request-id"] }
tracing = "0.1"
uuid = { version = "1", features = ["v4", "serde"] }
