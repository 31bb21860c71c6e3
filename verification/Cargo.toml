[package]
name = "ashford"
version = "0.1.0"
edition = "2021"
publish = false

[dependencies]
regex = "1"
html2text = "*"
serde = { version = "1", features = ["derive"] }
serde_json = "1"
base64 = "0.22"
rand = "0.8"
chrono = "0.4"
thiserror = "1"
