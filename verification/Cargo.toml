[package]
name = "spur_api"
version = "0.1.0"
edition = "2021"
publish = false

[dependencies]
anyhow = "=1.0.104"
async-trait = "=0.1.92"
axum = "=0.8.9"
axum-extra = { version = "=0.10.3", features = ["typed-header"] }
bcrypt = "=0.17.1"
chrono = "=0.4.45"
colored = "=3.1.1"
dotenvy = "=0.15.7"
futures = "=0.3.34"
jsonwebtoken = { version = "=10.4.0", default-features = false, features = ["rust_crypto", "use_pem"] }
log = "=0.4.35"
serde = { version = "=1.0.229", features = ["derive"] }
serde_json = { version = "=1.0.154", features = ["preserve_order"] }
sqlx = { version = "=0.8.6", default-features = false, features = ["runtime-tokio", "postgres", "chrono"] }
thiserror = "=2.0.21"
tokio = { version = "=1.54.1", features = ["macros", "rt-multi-thread", "net"] }
tower-http = { version = "=0.6.11", features = ["cors"] }
validator = { version = "=0.20.0", features = ["derive"] }
