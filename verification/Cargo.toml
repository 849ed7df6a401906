[package]
name = "card_router"
version = "0.1.0"
edition = "2021"
publish = false

[dependencies]
uuid = { version = "=1.29.1", features = ["v4", "serde"] }
chrono = { version = "=0.4.45", features = ["serde"] }
serde = { version = "=1.0.229", features = ["derive"] }
serde_json = "=1.0.154"
thiserror = "=1.0.69"
actix-web = { version = "=4.18.1", default-features = false, features = ["macros"] }
diesel = { version = "=2.1.6", default-features = false, features = ["postgres_backend", "uuid", "chrono"] }
diesel-async = { version = "=0.4.1", features = ["postgres", "bb8"] }
bb8 = "=0.8.6"
r2d2 = "=0.8.10"
jsonwebtoken = "=9.3.1"
secrecy = "=0.8.0"
serde-aux = "=4.7.0"
serde_with = "=3.24.0"
dotenv = "=0.15.0"
config = "=0.13.4"
async-trait = "=0.1.92"
tracing = "=0.1.44"
lazy_static = "=1.5.1"
tokio = { version = "=1.54.1", features = ["sync"] }
futures-util = "=0.3.34"
awc = { version = "=3.11.0", default-features = false }
actix-web-httpauth = "=0.8.3"

[dev-dependencies]
mockall = "=0.12.1"
