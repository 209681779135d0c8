[package]
name = "mini_redis"
version = "0.1.0"
edition = "2021"
publish = false

[dependencies]
confval = { version = "=0.12.0", features = ["derive", "toml", "color"] }
serde = { version = "=1.0.229", features = ["derive"] }
toml = "=1.2.1"
clap = { version = "=4.6.7", features = ["derive"] }
tokio = { version = "=1.54.1", features = ["net", "signal", "macros", "rt-multi-thread", "time"] }
tracing-subscriber = { version = "=0.3.23", features = ["env-filter", "fmt"] }
