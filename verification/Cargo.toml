[package]
name = "people_store"
version = "0.1.0"
edition = "2021"
publish = false

[dependencies]
actix-web = { version = "4", default-features = false, features = ["macros"] }
config = { version = "0.13", default-features = false }
deadpool-postgres = { version = "0.10", features = ["serde"] }
dotenv = "0.15"
env_logger = { version = "0.10", default-features = false }
serde = { version = "1", features = ["derive"] }
serde_json = "1"
tokio-postgres = "0.7"
