[package]
name = "nerdnuggets"
version = "0.1.0"
edition = "2021"
publish = false

[dependencies]
uuid = "=1.29.1"
email_address = "=0.2.9"
url = "=2.5.8"
rand = "=0.8.8"
chrono = "=0.4.45"
bcrypt = "=0.19.3"
dotenv = "=0.15.0"
serde = { version = "=1.0.229", features = ["derive"] }
serde_json = "=1.0.154"
base64 = "=0.23.1"
urlencoding = "2"
