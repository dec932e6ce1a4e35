[package]
name = "user_service"
version = "0.1.0"
edition = "2021"
publish = false

[dependencies]
actix-web = { version = "4", default-features = false, features = ["macros"] }
dotenv = "0.15"
env_logger = "0.11"
log = "0.4"
serde = { version = "1", features = ["derive"] }
sqlx = { version = "0.8", default-features = false, features = ["postgres", "runtime-tokio", "derive"] }
tracing = "0.1"
utoipa = "5"
utoipa-swagger-ui = { version = "9", features = ["actix-web", "vendored"] }
uuid = { version = "1", features = ["v4"] }
