[package]
name = "coinwatch"
version = "0.1.0"
edition = "2021"
publish = false

[dependencies]
serde_json = "1"
chrono = "0.4"
serde = { version = "1", features = ["derive"] }
toml = "*"
reqwest = { version = "*", default-features = false }
actix-web = { version = "4", default-features = false, features = ["macros"] }
actix-files = "*"
