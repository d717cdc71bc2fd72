[package]
name = "weather_client"
version = "0.1.0"
edition = "2021"
publish = false

[dependencies]
reqwest = { version = "*", features = ["json"] }
serde = { version = "1", features = ["derive"] }
serde_url_params = "*"
tokio = { version = "1", features = ["macros", "rt-multi-thread"] }
urlencoding = "2"
