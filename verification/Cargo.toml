[package]
name = "athena_mock"
version = "0.1.0"
edition = "2021"
publish = false

[dependencies]
evmap = "10"
uuid = { version = "1", features = ["v4"] }
aws-sdk-athena = { version = "1", default-features = false }
actix-web = { version = "4", default-features = false, features = ["macros"] }
actix-rt = "2"
dotenv = "0.15"
mime = "0.3"
serde = { version = "1", features = ["derive"] }
