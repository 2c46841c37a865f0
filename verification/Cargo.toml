[package]
name = "tempmail"
version = "0.1.0"
edition = "2021"
publish = false

[dependencies]
hex = "*"
mail-parser = "*"
rand = "*"
ring = "*"
tokio = { version = "*", features = ["full"] }
sqlx = { version = "*", features = ["postgres", "runtime-tokio", "chrono", "uuid"] }
serde = { version = "*", features = ["derive"] }
serde_json = "*"
uuid = { version = "*", features = ["v4"] }
chrono = "*"
thiserror = "*"
axum = "*"
