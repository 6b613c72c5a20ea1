[package]
name = "todo_api"
version = "0.1.0"
edition = "2021"
publish = false

[dependencies]
actix-files = "*"
actix-rt = "*"
actix-web = "*"
dotenv = "*"
failure = "*"
rusoto_core = { version = "*", default-features = false, features = ["rustls"] }
rusoto_dynamodb = { version = "*", default-features = false, features = ["rustls"] }
serde = { version = "*", features = ["derive"] }
serde_dynamodb = "*"
serde_json = "*"
uuid = { version = "*", features = ["v4", "serde"] }
