[package]
name = "wpp_server"
version = "0.1.0"
edition = "2021"
publish = false

[dependencies]
bson = "2"
uuid = { version = "1", features = ["v4"] }
bcrypt = "*"
chrono = "0.4"
serde = { version = "1", features = ["derive"] }
serde_json = "1"
anyhow = "1"
tokio = { version = "1", features = ["rt-multi-thread", "macros", "sync", "time", "signal"] }
futures-util = "0.3"
actix-web = { version = "4", default-features = false, features = ["macros"] }
actix-ws = "0.3"
actix-cors = "0.7"
actix-files = "0.6"
actix-multipart = "0.7"
jsonwebtoken = "9"
reqwest = { version = "0.12", default-features = false, features = ["json", "rustls-tls"] }
mongodb = "3"
redis = { version = "*", features = ["tokio-comp"] }
mediasoup-types = "*"
dotenv = "0.15"
tracing = "0.1"
