[package]
name = "counters"
version = "0.1.0"
edition = "2021"
publish = false

[dependencies]
nanoid = "0.4"
chrono = { version = "0.4", default-features = false, features = ["std", "clock"] }
actix-web = { version = "4", default-features = false, features = ["macros", "compress-gzip"] }
actix-http = "3"
actix-cors = "0.7"
actix-web-prom = "*"
prometheus = "*"
anyhow = "1"
askama_actix = "0.14"
dotenvy = "0.15"
sqlx = { version = "0.7", default-features = false, features = ["sqlite", "runtime-tokio", "chrono"] }
