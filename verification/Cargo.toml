[package]
name = "wallet_relay"
version = "0.1.0"
edition = "2021"
publish = false

[dependencies]
regex = "1"
chrono = "0.4"
dotenv = "0.15"
tokio = { version = "1", features = ["rt"] }
grammers-client = "0.7"
