[package]
name = "bookstore_testbed"
version = "0.1.0"
edition = "2021"
publish = false

[dependencies]
uuid = { version = "=1.27.0", features = ["v4", "serde"] }
axum = "=0.8.9"
color-eyre = "=0.6.5"
futures = "=0.3.34"
inventory = "=0.3.25"
rand = "=0.10.3"
serde = { version = "=1.0.229", features = ["derive"] }
serde_json = "=1.0.151"
sqlx = { version = "=0.9.0", default-features = false, features = ["postgres", "runtime-tokio", "migrate", "uuid", "macros"] }
tokio = { version = "=1.53.2", features = ["rt-multi-thread", "macros", "sync", "net"] }
tower = { version = "=0.5.3", features = ["util"] }
tracing = "=0.1.44"
tracing-subscriber = { version = "=0.3.23", features = ["env-filter"] }
