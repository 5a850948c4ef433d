[package]
name = "umbrella"
version = "0.1.0"
edition = "2021"
publish = false

[dependencies]
anyhow = "=1.0.104"
dotenvy = "=0.15.7"
gettext = "=0.4.0"
rkyv = "=0.8.18"
tempfile = "=3.27.0"
tokio = { version = "=1.54.1", features = ["macros", "rt-multi-thread", "fs"] }
toml = "=0.9.12"
tracing = "=0.1.44"
tracing-subscriber = { version = "=0.3.23", features = ["env-filter"] }
wows_replays = "=0.40.0"
wowsunpack = { version = "=0.39.0", features = ["rkyv"] }
