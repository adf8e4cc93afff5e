[package]
name = "todo_auth"
version = "0.1.0"
edition = "2021"
publish = false

[dependencies]
bcrypt = "=0.19.3"
jsonwebtoken = { version = "=11.1.0", default-features = false, features = ["rust_crypto"] }
uuid = { version = "=1.27.0", features = ["v7"] }
chrono = "=0.4.45"
serde = { version = "=1.0.229", features = ["derive"] }
axum = "=0.8.9"
tokio = { version = "=1.53.2", features = ["rt-multi-thread", "macros", "net"] }
dotenvy = "=0.15.7"
