[package]
name = "sparkcloud"
version = "0.1.0"
edition = "2021"
publish = false

[dependencies]
bcrypt = "0.15"
rand = "0.8"
regex = "1"
rocket = { version = "0.5", features = ["json"] }
tokio = { version = "1", features = ["rt-multi-thread", "macros"] }
tokio-postgres = { version = "0.7", features = ["with-chrono-0_4"] }
chrono = { version = "0.4", features = ["serde"] }
handlebars = "5"
serde_json = "1"
lettre = "0.11"
config = { version = "0.14", default-features = false, features = ["toml"] }
async-stripe = { version = "*", default-features = false, features = ["runtime-tokio-hyper", "checkout", "billing", "webhook-events"] }
