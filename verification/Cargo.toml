[package]
name = "sonetto"
version = "0.1.0"
edition = "2021"
publish = false

[dependencies]
chrono = "0.4"
serde_json = "1"
bcrypt = "0.15"
serde = { version = "1", features = ["derive"] }
toml = "0.8"
anyhow = "1"
once_cell = "1"
tracing = "0.1"
tracing-subscriber = "0.3"
ansi_term = "0.12"
sqlx = { version = "0.8", default-features = false, features = ["sqlite", "runtime-tokio"] }
tokio = { version = "1", features = ["full"] }
prost = "0.13"
