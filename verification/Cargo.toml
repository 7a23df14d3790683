[package]
name = "openiot"
version = "0.1.0"
edition = "2021"
publish = false

[dependencies]
serde = { version = "1", features = ["derive"] }
serde_json = "1"
bcrypt = "0.15"
uuid = { version = "1", features = ["v4"] }
chrono = "0.4"
rusqlite = { version = "0.31", features = ["bundled"] }
axum = { version = "0.7", features = ["ws", "macros"] }
tokio = { version = "1", features = ["full"] }
tower-http = { version = "0.5", features = ["cors", "fs"] }
tracing = "0.1"
tracing-subscriber = "0.3"
futures-util = { version = "0.3", features = ["sink"] }
reqwest = { version = "0.12", default-features = false, features = ["json"] }
jsonwebtoken = "9"
