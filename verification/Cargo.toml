[package]
name = "shurly"
version = "0.1.0"
edition = "2021"
publish = false

[dependencies]
argon2 = "*"
axum = "*"
axum-client-ip = "*"
axum-extra = { version = "*", features = ["typed-header"] }
chrono = "*"
dotenvy = "*"
jsonwebtoken = "9"
moka = { version = "*", features = ["future"] }
percent-encoding = "*"
serde = { version = "*", features = ["derive"] }
sqlx = { version = "*", default-features = false, features = ["postgres", "runtime-tokio", "uuid", "chrono", "ipnetwork", "migrate"] }
thiserror = "*"
tokio = { version = "*", features = ["rt-multi-thread", "macros", "sync", "signal", "net"] }
tokio-util = "*"
tower-http = { version = "*", features = ["trace"] }
tracing = "*"
tracing-subscriber = { version = "*", features = ["env-filter"] }
unicode-normalization = "*"
url = "*"
uuid = { version = "*", features = ["v4"] }
