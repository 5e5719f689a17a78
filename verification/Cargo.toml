[package]
name = "residents_core"
version = "0.1.0"
edition = "2021"
publish = false

[dependencies]
chrono = { version = "=0.4.45", features = ["serde"] }
serde = { version = "=1.0.229", features = ["derive"] }
dotenv = "=0.15.0"
bigdecimal = { version = "=0.4.11", features = ["serde"] }
tokio = { version = "=1.53.2", features = ["macros", "rt-multi-thread", "sync"] }
sqlx = { version = "=0.9.0", default-features = false, features = ["postgres", "runtime-tokio", "chrono", "bigdecimal"] }
