[package]
name = "weather_station"
version = "0.1.0"
edition = "2021"
publish = false

[dependencies]
colored = "2"
dotenvy = "0.15"
reqwest = { version = "0.12", features = ["blocking", "json"] }
serde = { version = "1", features = ["derive"] }
