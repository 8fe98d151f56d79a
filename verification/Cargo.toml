[package]
name = "reaper"
version = "0.1.0"
edition = "2021"
publish = false

[dependencies]
regex = "1"
numfmt = "1"
ordinal = "0.3"
inflections = "1"
rand = "0.8"
humantime = "2"
serenity = "0.12"
sqlx = { version = "0.7", features = ["runtime-tokio", "postgres", "time"] }
tokio = { version = "1", features = ["full"] }
tracing = "0.1"
async-trait = "0.1"
time = "0.3"
serde = { version = "1", features = ["derive"] }
serde_json = "1"
lazy_static = "1"
reqwest = "0.11"
