[package]
name = "todo_api"
version = "0.1.0"
edition = "2021"
publish = false

[dependencies]
chrono = { version = "0.4", features = ["serde"] }
rocket = { version = "0.5", features = ["json"] }
serde = { version = "1", features = ["derive"] }
uuid = { version = "1", features = ["v4"] }
