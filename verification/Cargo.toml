[package]
name = "site_backend"
version = "0.1.0"
edition = "2021"
publish = false

[dependencies]
select = "0.6"
image = "0.25"
actix-web = "4"
tokio = { version = "1", features = ["sync", "macros", "rt-multi-thread"] }
reqwest = "0.12"
serde = { version = "1", features = ["derive"] }
serde_json = "1"
sqlx = { version = "0.8", default-features = false, features = ["sqlite", "runtime-tokio", "derive"] }
dotenvy = "0.15"
