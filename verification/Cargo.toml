[package]
name = "federation_core"
version = "0.1.0"
edition = "2021"
publish = false

[dependencies]
url = "=2.5.8"
uuid = { version = "=1.29.0", features = ["v4"] }
time = "=0.3.55"
serde = { version = "=1.0.229", features = ["derive"] }
serde_json = "=1.0.154"
anyhow = "=1.0.104"
clap = { version = "=4.6.7", features = ["derive", "env"] }
garde = { version = "=0.23.0", features = ["derive"] }
tracing = "=0.1.44"
tracing-subscriber = { version = "=0.3.23", features = ["env-filter"] }
rustls = "=0.23.46"
axum = "=0.8.9"
tower-sessions = "=0.15.0"
sqlx = { version = "=0.9.0", default-features = false, features = ["postgres", "runtime-tokio", "uuid", "time", "derive", "json"] }
activitypub_federation = { version = "=0.6.6", default-features = false, features = ["axum"] }
tokio = { version = "=1.54.1", features = ["rt-multi-thread", "macros", "net"] }
