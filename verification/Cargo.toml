[package]
name = "zero2prod"
version = "0.1.0"
edition = "2021"
publish = false

[dependencies]
anyhow = "1"
axum = "*"
chrono = { version = "0.4", default-features = false, features = ["clock"] }
config = "*"
hyper = "*"
reqwest = { version = "*", default-features = false }
secrecy = "*"
serde = { version = "1", features = ["derive"] }
serde-aux = "*"
sqlx = { version = "*", default-features = false, features = ["runtime-tokio", "postgres", "chrono", "uuid"] }
tokio = { version = "1", features = ["rt-multi-thread", "macros", "net"] }
tower = "*"
tower-http = { version = "*", features = ["request-id", "trace", "util"] }
tracing = "0.1"
tracing-bunyan-formatter = "*"
tracing-subscriber = { version = "*", features = ["env-filter", "fmt"] }
unicode-segmentation = "1"
uuid = { version = "1", features = ["v4"] }
validator = "*"
xdg = "*"
