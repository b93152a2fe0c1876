[package]
name = "geo_proxy"
version = "0.1.0"
edition = "2021"
publish = false

[dependencies]
dashmap = "*"
axum = "*"
chrono = "*"
dotenv = "*"
reqwest = { version = "*", default-features = false, features = ["json"] }
serde = { version = "*", features = ["derive"] }
tokio = { version = "*", features = ["macros", "rt-multi-thread", "net"] }
tower-http = { version = "*", features = ["trace"] }
tracing = "*"
tracing-subscriber = "*"
