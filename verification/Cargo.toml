[package]
name = "share_rs"
version = "0.1.0"
edition = "2021"
publish = false

[dependencies]
sha2 = "0.10"
actix-files = "0.6"
actix-multipart = "0.7"
actix-web = "4"
anyhow = "1"
async-fs = "2"
async-trait = "0.1"
chrono = "0.4"
dirs = "5"
env_logger = "0.11"
futures = "0.3"
futures-util = "0.3"
log = "0.4"
mime_guess2 = "*"
sea-orm = { version = "1", default-features = false, features = ["macros", "sqlx-sqlite", "runtime-tokio-rustls", "with-chrono"] }
sea-orm-migration = { version = "1", default-features = false, features = ["sqlx-sqlite", "runtime-tokio-rustls"] }
serde = { version = "1", features = ["derive"] }
serde_json = "1"
snowflaked = "*"
tokio = { version = "1", features = ["rt-multi-thread", "sync", "macros"] }
