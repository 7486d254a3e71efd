[package]
name = "sauce_bot"
version = "0.1.0"
edition = "2021"
publish = false

[dependencies]
url = "=2.5.8"
num-traits = "=0.2.19"
sauce-api = { version = "=1.0.0", features = ["rustls"] }
sparkle-convenience = "=0.15.8"
twilight-gateway = "=0.15.4"
twilight-http = "=0.15.4"
twilight-interactions = "0.15"
twilight-model = "=0.15.4"
twilight-util = { version = "0.15", features = ["builder"] }
tokio = { version = "1", features = ["rt-multi-thread", "macros", "sync", "time"] }
toml = "0.8"
serde = { version = "1", features = ["derive"] }
tracing = "0.1"
tracing-subscriber = { version = "0.3", features = ["env-filter", "fmt"] }
color-eyre = "0.6"
