[package]
name = "medbook_deliveryservice"
version = "0.1.0"
edition = "2021"
publish = false

[dependencies]
anyhow = "=1.0.104"
axum = "=0.8.9"
chrono = { version = "=0.4.45", features = ["serde"] }
diesel = { version = "=2.3.14", default-features = false, features = ["postgres_backend", "uuid", "chrono", "serde_json"] }
diesel-async = { version = "=0.9.2", features = ["postgres", "deadpool", "migrations"] }
diesel_migrations = "=2.3.2"
futures = "=0.3.34"
lapin = { version = "=4.12.3", default-features = false, features = ["tokio"] }
serde = { version = "=1.0.229", features = ["derive"] }
serde_json = "=1.0.154"
tokio = { version = "=1.54.1", features = ["full"] }
tracing = "=0.1.44"
utoipa = { version = "=5.5.0", features = ["axum_extras", "chrono", "uuid"] }
utoipa-axum = "=0.2.0"
uuid = { version = "=1.29.0", features = ["v4", "serde"] }
