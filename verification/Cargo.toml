[package]
name = "dialog"
version = "0.1.0"
edition = "2021"
publish = false

[dependencies]
crossterm = "0.27"
indicatif = "0.17"
inquire = "0.6"
tokio = { version = "1", features = ["rt"] }
