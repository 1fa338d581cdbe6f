[package]
name = "weather_scene"
version = "0.1.0"
edition = "2021"
publish = false

[dependencies]
dotenvy = "=0.15.7"
nannou = "=0.19.0"
nannou_core = "=0.19.0"
reqwest = { version = "0.12", default-features = false, features = ["blocking", "json", "native-tls"] }
serde_json = "=1.0.154"
