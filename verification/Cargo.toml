[package]
name = "derpiboorust"
version = "0.1.0"
edition = "2021"
publish = false

[dependencies]
url = "2"
form_urlencoded = "1"
serde = { version = "1", features = ["derive"] }
chrono = { version = "0.4", features = ["serde"] }
reqwest = { version = "0.12", default-features = false, features = ["blocking", "json"] }
