[package]
name = "axum_learn_duckdb"
version = "0.1.0"
edition = "2021"
publish = false

[dependencies]
axum = "=0.7.9"
axum-extra = { version = "=0.9.6", features = ["typed-header"] }
bcrypt = "=0.15.1"
chrono = "=0.4.45"
dotenvy = "=0.15.7"
dotenvy_macro = "=0.15.7"
duckdb = { version = "=1.20000.1", default-features = false }
libduckdb-sys = { version = "=1.20000.1", default-features = false, features = ["capi-v1"] }
hyper = "1"
jsonwebtoken = "=9.3.1"
minio = "=0.4.0"
serde = { version = "1", features = ["derive"] }
serde_json = "1"
tokio = { version = "1", features = ["full"] }
