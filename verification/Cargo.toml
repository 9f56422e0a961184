[package]
name = "keycloak_gateway"
version = "0.1.0"
edition = "2021"
publish = false

[dependencies]
actix-files = "0.6"
actix-rt = "2"
actix-service = "2"
actix-web = { version = "4", default-features = false, features = ["macros"] }
bcrypt = "0.15"
bytes = "1"
diesel = { version = "2", features = ["postgres"] }
dotenv = "0.15"
env_logger = "0.11"
futures = "0.3"
futures-util = "0.3"
jsonwebtoken = "9"
log = "0.4"
reqwest = { version = "0.12", default-features = false, features = ["json"] }
serde = { version = "1", features = ["derive"] }
serde_json = "1"
uuid = { version = "1", features = ["v4"] }
