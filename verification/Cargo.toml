[package]
name = "arcadia"
version = "0.1.0"
edition = "2021"
publish = false

[dependencies]
thotp = "*"
data-encoding = "2"
sha2 = "0.10"
rand = "0.8"
moka = { version = "0.12", features = ["sync"] }
axum = "0.7"
tokio = { version = "1", features = ["full"] }
tokio-util = { version = "0.7", features = ["io"] }
tower-http = { version = "0.5", features = ["cors"] }
sqlx = { version = "0.7", default-features = false, features = ["runtime-tokio", "postgres"] }
reqwest = { version = "0.11", default-features = false, features = ["json"] }
serde = { version = "1", features = ["derive"] }
serde_json = "1"
log = "0.4"
