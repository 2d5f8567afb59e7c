[package]
name = "backend"
version = "0.1.0"
edition = "2021"
publish = false

[dependencies]
anyhow = "1"
axum = { version = "0.5", features = ["macros"] }
axum-extra = { version = "0.3", features = ["cookie"] }
diesel = { version = "2.0", features = ["postgres", "r2d2", "uuid", "time"] }
dotenv = "0.15"
rand = "0.8"
rust-argon2 = "1.0"
serde = { version = "1", features = ["derive"] }
thiserror = "1"
time = { version = "0.3", features = ["serde"] }
tokio = { version = "1", features = ["full"] }
tower-http = { version = "0.3", features = ["trace"] }
tracing-subscriber = { version = "0.3", features = ["env-filter"] }
uuid = { version = "1", features = ["v4", "serde"] }
zxcvbn = "2"
