[package]
name = "justpic"
version = "0.1.0"
edition = "2021"
publish = false

[dependencies]
uuid = { version = "1", features = ["v4"] }
time = "0.3"
base64 = "0.22"
argon2 = { version = "0.5", features = ["std"] }
rand_core = { version = "0.6", features = ["getrandom"] }
validator = "*"
serde = { version = "1", features = ["derive"] }
serde_json = "1"
actix-web = "4"
actix-multipart = "*"
sqlx = { version = "0.8", default-features = false, features = ["postgres", "runtime-tokio", "uuid", "time", "macros", "migrate"] }
deadpool-redis = "*"
tokio = { version = "1", features = ["full"] }
tokio-util = { version = "0.7", features = ["io"] }
futures = "0.3"
bytes = "1"
tracing = "0.1"
tracing-subscriber = "0.3"
dotenvy = "0.15"
utoipa = "*"
async-trait = "0.1"
aws-sdk-s3 = { version = "1", default-features = false, features = ["behavior-version-latest", "rt-tokio"] }
aws-config = { version = "1", default-features = false, features = ["behavior-version-latest", "rt-tokio"] }
