[package]
name = "actix-crud"
version = "0.1.0"
edition = "2021"
publish = false

[dependencies]
chrono = { version = "=0.4.45", features = ["serde"] }
uuid = { version = "=1.29.1", features = ["v4"] }
actix-web = { version = "=4.18.1", default-features = false, features = ["macros", "cookies"] }
serde = { version = "=1.0.229", features = ["derive"] }
serde_json = "=1.0.154"
log = "=0.4.35"
env_logger = "=0.11.11"
dotenv = "=0.15.0"
deadpool-postgres = "=0.14.2"
tokio-postgres = { version = "=0.7.18", features = ["with-chrono-0_4", "with-serde_json-1"] }
postgres-types = "=0.2.14"
async-trait = "=0.1.92"
