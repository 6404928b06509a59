[package]
name = "z2p_axum"
version = "0.1.0"
edition = "2021"
publish = false

[dependencies]
validator = "*"
axum = "*"
tokio = { version = "*", features = ["rt-multi-thread", "macros", "net"] }
sqlx = { version = "*", default-features = false, features = ["runtime-tokio", "postgres", "uuid"] }
serde = { version = "*", features = ["derive"] }
tracing = "*"
tracing-subscriber = { version = "*", features = ["env-filter", "fmt"] }
tower-http = { version = "*", features = ["trace"] }
uuid = { version = "*", features = ["v4"] }
miette = "*"
secrecy = "*"
