[package]
name = "server"
version = "0.1.0"
edition = "2021"
publish = false

[dependencies]
srp = "0.7.0-0"
sha2 = "0.11"
rand = "=0.9.5"
base64 = "=0.22.1"
uuid = { version = "=1.29.1", features = ["serde", "v4"] }
serde = { version = "=1.0.229", features = ["derive"] }
serde_json = "=1.0.154"
actix = "=0.13.5"
actix-web = "=4.18.1"
actix-web-actors = "=4.3.1"
actix-session = { version = "=0.11.0", features = ["redis-session"] }
actix-cors = "=0.7.2"
sqlx = { version = "=0.8.6", default-features = false, features = ["postgres", "runtime-tokio", "uuid", "chrono", "derive"] }
futures-util = "=0.3.34"
dotenvy = "=0.15.7"
