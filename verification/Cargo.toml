[package]
name = "bearer_auth"
version = "0.1.0"
edition = "2021"
publish = false

[dependencies]
actix-cors = "0.7"
actix-web = { version = "4", default-features = false, features = ["macros"] }
bcrypt = "*"
chrono = { version = "0.4", default-features = false, features = ["clock", "std"] }
dotenv = "0.15"
futures-util = "0.3"
jsonwebtoken = "9"
log = "0.4"
serde = { version = "1", features = ["derive"] }
serde_json = { version = "1", features = ["preserve_order"] }
sqlx = { version = "0.8", default-features = false, features = ["postgres", "runtime-tokio"] }
thiserror = "*"
tracing-subscriber = { version = "0.3", features = ["env-filter"] }
validator = "*"
