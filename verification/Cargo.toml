[package]
name = "hellojudge_core"
version = "0.1.0"
edition = "2021"
publish = false

[dependencies]
argon2 = "=0.5.3"
rand_core = { version = "=0.6.4", features = ["getrandom"] }
regex = "=1.13.1"
encoding_rs = "=0.8.44"
urlencoding = "=2.1.3"
chrono = "=0.4.45"
uuid = { version = "=1.29.0", features = ["v4"] }
serde = { version = "=1.0.229", features = ["derive"] }
serde_json = "=1.0.154"
serde_yaml = "0.9"
anyhow = "=1.0.104"
log = "=0.4.35"
flexi_logger = "0.27"
actix-web = { version = "=4.18.1", default-features = false, features = ["macros", "cookies"] }
actix-session = { version = "=0.7.2", features = ["cookie-session"] }
sea-orm = { version = "=0.12.15", default-features = false, features = ["macros", "with-chrono", "with-json", "sqlx-mysql", "runtime-tokio-rustls"] }
redis = { version = "=0.23.5", default-features = false, features = ["tokio-comp", "aio"] }
lettre = { version = "=0.10.4", default-features = false, features = ["builder", "smtp-transport", "tokio1", "tokio1-rustls-tls"] }
tokio = { version = "=1.54.1", features = ["macros", "rt-multi-thread", "fs"] }
