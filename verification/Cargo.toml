[package]
name = "contact_service"
version = "0.1.0"
edition = "2021"
publish = false

[dependencies]
url = "2"
uuid = { version = "1", features = ["v4"] }
actix-web = "4"
actix-multipart = "0.6"
futures = "0.3"
sea-orm = { version = "1", default-features = false, features = ["macros"] }
serde = { version = "1", features = ["derive"] }
serde_json = "1"
dotenv = "0.15"
