[package]
name = "influx_export"
version = "0.1.0"
edition = "2021"
publish = false

[dependencies]
chrono = "*"
serde_json = "*"
influxdb = "*"
tokio = { version = "*", features = ["rt-multi-thread", "macros", "time"] }
dotenv = "*"
