[package]
name = "visdata"
version = "0.1.0"
edition = "2021"
publish = false

[dependencies]
regex = "1"
rand = "0.9"
sha2 = "0.10"
base64 = "0.22"
urlencoding = "2"
svix-ksuid = "0.8"
serde = { version = "1", features = ["derive"] }
serde_json = "1"
reqwest = { version = "0.12", default-features = false, features = ["json"] }
tokio = { version = "1", features = ["sync", "rt", "macros"] }
actix-web = { version = "4", default-features = false, features = ["macros", "cookies"] }
jsonwebtoken = "9"
chrono = "0.4"
tracing = "0.1"
anyhow = "1"
thiserror = "2"
once_cell = "1"
dashmap = "6"
uuid = { version = "1", features = ["v4"] }
