[package]
name = "credentials"
version = "0.1.0"
edition = "2021"
publish = false

[dependencies]
actix-web = { version = "4", default-features = false, features = ["macros"] }
argon2 = { version = "0.5", features = ["std"] }
diesel = { version = "2", features = ["sqlite", "r2d2"] }
dotenv = "0.15"
env_logger = "0.10"
log = "0.4"
rand = "0.8"
serde = { version = "1", features = ["derive"] }
thiserror = "1"
