[package]
name = "tagify"
version = "0.1.0"
edition = "2021"
publish = false

[dependencies]
axum = "=0.8.9"
dotenv = "=0.15.0"
spotify-rs = "=0.3.14"
tokio = { version = "=1.53.2", features = ["full"] }
url = "=2.5.8"
