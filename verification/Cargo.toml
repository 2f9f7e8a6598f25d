[package]
name = "brute_http"
version = "0.1.0"
edition = "2021"
publish = false

[dependencies]
uuid = { version = "1", features = ["v4"] }
serde = { version = "1", features = ["derive"] }
actix = "0.13"
actix-web = "4"
actix-web-httpauth = "0.8"
sqlx = { version = "0.8", default-features = false, features = ["postgres", "runtime-tokio", "derive", "macros"] }
tokio = { version = "1", features = ["sync", "time", "macros", "rt-multi-thread"] }
ipinfo = "*"
log = "0.4"
anyhow = "1"
