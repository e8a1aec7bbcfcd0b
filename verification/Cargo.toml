[package]
name = "wiw_boerse"
version = "0.1.0"
edition = "2021"
publish = false

[dependencies]
mysql = { version = "*", default-features = false }
flate2 = { version = "*", default-features = false, features = ["rust_backend"] }
tiny_http = "*"
base64 = "*"
form_urlencoded = "*"
serde = { version = "*", features = ["derive"] }
serde_json = "*"
chrono = { version = "*", features = ["serde"] }
