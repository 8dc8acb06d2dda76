[package]
name = "craftlist"
version = "0.1.0"
edition = "2021"
publish = false

[dependencies]
actix-cors = "=0.7.2"
actix-web = { version = "=4.18.1", default-features = false, features = ["macros", "cookies"] }
actix-web-lab = "=0.19.2"
argon2 = "=0.5.3"
async-trait = "=0.1.92"
chrono = { version = "=0.4.45", default-features = false, features = ["std", "clock", "serde"] }
elytra-ping = "=5.1.0"
env_logger = { version = "=0.11.11", default-features = false }
futures = "=0.3.34"
jsonwebtoken = { version = "=9.3.1", default-features = false }
log = "=0.4.34"
parking_lot = "=0.12.5"
sea-orm = { version = "=0.12.15", default-features = false, features = ["macros", "sqlx-mysql", "runtime-tokio-rustls", "with-chrono", "with-json"] }
sea-orm-migration = { version = "=0.12.15", default-features = false, features = ["sqlx-mysql", "runtime-tokio-rustls"] }
serde = { version = "=1.0.229", features = ["derive"] }
serde_json = "=1.0.154"
thiserror = "=1.0.69"
trust-dns-resolver = { version = "=0.23.2", default-features = false, features = ["tokio-runtime"] }
utoipa = { version = "=4.2.3", features = ["actix_extras", "chrono"] }
