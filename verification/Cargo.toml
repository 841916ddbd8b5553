[package]
name = "pessoas"
version = "0.1.0"
edition = "2021"
publish = false

[dependencies]
actix-web = { version = "4", default-features = false, features = ["macros"] }
chrono = { version = "0.4", features = ["serde"] }
deadpool-postgres = "*"
futures = "0.3"
refinery = { version = "*", features = ["tokio-postgres"] }
serde = { version = "1", features = ["derive"] }
serde_json = "1"
tokio-postgres = { version = "0.7", features = ["with-uuid-1", "with-chrono-0_4"] }
uuid = { version = "1", features = ["v4"] }
