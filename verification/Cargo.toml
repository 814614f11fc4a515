[package]
name = "color_bot"
version = "0.1.0"
edition = "2021"
publish = false

[dependencies]
log = "=0.4.34"
serde_json = "1"
serenity = { version = "=0.10.10", features = ["unstable_discord_api"] }
