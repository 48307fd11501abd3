[package]
name = "aardwolf_models"
version = "0.1.0"
edition = "2021"
publish = false

[dependencies]
bcrypt = "*"
chrono = "0.4"
rand = "0.8"
url = "*"
serde = { version = "1", features = ["derive"] }
serde_json = "1"
diesel = { version = "1.4", features = ["postgres", "chrono", "serde_json"] }
failure = "0.1"
log = "0.4"
