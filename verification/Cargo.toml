[package]
name = "spotify_client"
version = "0.1.0"
edition = "2021"
publish = false

[dependencies]
form_urlencoded = "*"
serde_json = "*"
serde = { version = "*", features = ["derive"] }
isahc = "*"
thiserror = "*"
