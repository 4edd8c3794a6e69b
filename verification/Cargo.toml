[package]
name = "birds_psy"
version = "0.1.0"
edition = "2021"
publish = false

[dependencies]
web-push = { version = "=0.10.4", default-features = false }
base64 = "=0.13.1"
http = "=0.2.12"
serde_json = "=1.0.154"
futures = "=0.3.34"
tokio = { version = "=1.54.1", features = ["rt", "macros"] }
isahc = "=1.8.3"
sqlx = { version = "=0.7.4", default-features = false, features = ["postgres", "runtime-tokio"] }
tracing = "=0.1.44"
ulid = "=1.2.1"

[dev-dependencies]
ece = "=2.4.2"
