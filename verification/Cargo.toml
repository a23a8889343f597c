[package]
name = "arrively"
version = "0.1.0"
edition = "2021"
publish = false

[dependencies]
actix-web = "4"
async-trait = "0.1"
bcrypt = "0.15"
chrono = { version = "0.4", features = ["serde"] }
dotenv = "0.15"
env_logger = "0.11"
jsonwebtoken = "9"
log = "0.4"
regex = "1"
rust_decimal = "1"
sea-orm = { version = "1.1", features = ["sqlx-postgres", "runtime-tokio-rustls", "macros"] }
sea-orm-migration = { version = "1.1", features = ["sqlx-postgres", "runtime-tokio-rustls"] }
serde = { version = "1", features = ["derive"] }
serde_json = "1"
tokio = { version = "1", features = ["time", "rt-multi-thread", "macros"] }
