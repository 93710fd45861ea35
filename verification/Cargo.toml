[package]
name = "cmc_influx"
version = "0.1.0"
edition = "2021"
publish = false

[dependencies]
axum = "*"
chrono = "=0.4.45"
colorism = "*"
daemonize = "=0.5.0"
influxdb = { version = "=0.7.2", features = ["derive"] }
rand = "=0.8.8"
reqwest = "=0.11.27"
serde = { version = "=1.0.229", features = ["derive"] }
serde_json = "=1.0.154"
tokio = { version = "=1.54.1", features = ["rt-multi-thread", "macros", "time", "net"] }
