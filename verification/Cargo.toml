[package]
name = "aura"
version = "0.1.0"
edition = "2021"
publish = false

[dependencies]
argon2 = "*"
fastrand = "2"
nanoid = "0.4"
chrono = "0.4"
serde = { version = "1", features = ["derive"] }
serde_json = "1"
tokio = { version = "1", features = ["full"] }
tokio-stream = "0.1"
tokio-util = { version = "0.7", features = ["io"] }
tracing = "0.1"
tracing-subscriber = "0.3"
dashmap = "*"
ahash = "0.8"
smol_str = "*"
diesel = { version = "2", features = ["chrono", "serde_json"] }
diesel-async = { version = "*", features = ["postgres", "deadpool"] }
diesel_migrations = "2"
diesel-derive-enum = { version = "*", features = ["postgres"] }
pgvector = { version = "*", features = ["diesel"] }
tonic = "*"
jsonwebtoken = "*"
tera = "1"
rustyline-async = "*"
