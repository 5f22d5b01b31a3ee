[package]
name = "auth-rs"
version = "0.1.0"
edition = "2021"
publish = false

[dependencies]
actix-web = { version = "=4.18.1", default-features = false, features = ["macros", "compress-gzip"] }
actix-web-httpauth = "=0.8.3"
dotenv = "=0.15.0"
num_cpus = "=1.17.0"
rand = "=0.8.8"
rust-argon2 = { version = "=3.0.0", default-features = false }
serde = { version = "=1.0.229", features = ["derive"] }
serde_json = "=1.0.154"
sqlx = { version = "=0.8.6", default-features = false, features = ["runtime-tokio", "postgres", "uuid", "time"] }
time = { version = "=0.3.55", features = ["serde"] }
tracing = "=0.1.44"
tracing-subscriber = { version = "=0.3.23", features = ["env-filter", "time"] }
uuid = { version = "=1.29.0", features = ["v4", "serde"] }
