[package]
name = "mine_bot"
version = "0.1.0"
edition = "2021"
publish = false

[dependencies]
anyhow = "=1.0.104"
dotenv = "=0.15.0"
poise = "=0.5.7"
reqwest = { version = "=0.12.28", default-features = false }
shuttle-poise = "=0.37.0"
shuttle-runtime = "=0.40.0"
