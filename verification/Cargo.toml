[package]
name = "country_bot"
version = "0.1.0"
edition = "2021"
publish = false

[dependencies]
serde_json = "*"
rand = "*"
tokio = { version = "*", features = ["rt-multi-thread", "macros", "time"] }
dotenvy = "*"
tweety-rs = "*"
