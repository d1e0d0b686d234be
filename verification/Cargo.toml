[package]
name = "backend"
version = "0.1.0"
edition = "2021"
publish = false

[dependencies]
bcrypt = "0.15"
chrono = { version = "0.4", features = ["serde"] }
dotenv = "0.15"
rand = "0.8"
rocket = { version = "0.5", features = ["json"] }
rocket_cors = "0.6"
sea-orm = { version = "1", default-features = false, features = ["sqlx-postgres", "runtime-tokio-rustls", "macros", "with-uuid", "with-chrono"] }
serde = { version = "1", features = ["derive"] }
serde_json = "1"
sqlx = { version = "0.8", default-features = false, features = ["postgres", "runtime-tokio", "uuid", "chrono"] }
tokio = { version = "1", features = ["full"] }
utoipa = { version = "4", features = ["uuid", "chrono", "rocket_extras"] }
utoipa-swagger-ui = { version = "7", features = ["rocket"] }
uuid = { version = "1", features = ["v4", "serde"] }
