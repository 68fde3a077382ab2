[package]
name = "todo_service"
version = "0.1.0"
edition = "2021"
publish = false

[dependencies]
async-trait = "*"
axum = "*"
chrono = { version = "*", features = ["serde"] }
dotenvy = "*"
http = "*"
serde = { version = "*", features = ["derive"] }
sqlx = { version = "*", features = ["runtime-tokio", "postgres", "chrono", "uuid"] }
tokio = { version = "*", features = ["rt-multi-thread", "macros", "net", "sync", "time"] }
tower = { version = "*", features = ["timeout", "util"] }
tower-http = { version = "*", features = ["trace"] }
tracing = "*"
tracing-subscriber = { version = "*", features = ["env-filter", "fmt"] }
uuid = { version = "*", features = ["v7", "serde"] }
