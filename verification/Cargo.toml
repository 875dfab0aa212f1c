[package]
name = "expense_tracker"
version = "0.1.0"
edition = "2021"
publish = false

[dependencies]
async-trait = "0.1"
axum = "0.8"
chrono = { version = "0.4", features = ["serde"] }
dotenvy = "0.15"
rust_decimal = "1"
sea-orm = { version = "1", default-features = false, features = ["macros", "with-uuid", "with-chrono", "with-rust_decimal", "sqlx-postgres", "runtime-tokio"] }
sea-orm-migration = { version = "1", default-features = false, features = ["sqlx-postgres"] }
serde = { version = "1", features = ["derive"] }
tokio = { version = "1", features = ["macros", "rt-multi-thread", "net", "sync"] }
uuid = { version = "1", features = ["v4", "serde"] }
