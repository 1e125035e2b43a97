[package]
name = "session_auth"
version = "0.1.0"
edition = "2021"
publish = false

[dependencies]
actix-cors = "*"
actix-web = { version = "4", features = ["rustls-0_23"] }
bcrypt = "*"
bson = "*"
dotenvy = "*"
futures = "*"
jsonwebtoken = "9"
mongodb = "3"
redis = { version = "*", features = ["tokio-comp", "connection-manager"] }
rustls = "0.23"
rustls-pemfile = "2"
serde = { version = "1", features = ["derive"] }
serde_json = "1"
thiserror = "*"
time = "0.3"
tracing = "0.1"
tracing-actix-web = "*"
tracing-subscriber = { version = "0.3", features = ["env-filter"] }
validator = { version = "*", features = ["derive"] }
