[package]
name = "patr_auth"
version = "0.1.0"
edition = "2021"
publish = false

[dependencies]
argon2 = "0.5"
uuid = "1"
time = "0.3"
ipnetwork = "0.20"
jsonwebtoken = "9"
serde = { version = "1", features = ["derive"] }
serde_json = "1"
tokio = { version = "1", features = ["macros", "rt-multi-thread", "signal"] }
futures = "0.3"
rustis = "*"
sqlx = { version = "0.8", default-features = false, features = ["postgres", "runtime-tokio", "uuid", "time", "ipnetwork"] }
