[package]
name = "midgard_sync"
version = "0.1.0"
edition = "2021"
publish = false

[dependencies]
rust_decimal = "1"
chrono = "0.4"
serde = { version = "1", features = ["derive"] }
serde_json = "1"
reqwest = { version = "*", default-features = false, features = ["json"] }
tokio = { version = "1", features = ["macros", "rt-multi-thread", "time"] }
sqlx = { version = "*", default-features = false, features = ["runtime-tokio", "postgres", "chrono", "rust_decimal"] }
axum = "*"
dotenv = "0.15"
