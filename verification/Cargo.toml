[package]
name = "veml7700_prometheus_exporter"
version = "0.1.0"
edition = "2021"
publish = false

[dependencies]
anyhow = "1"
clap = { version = "4", features = ["derive"] }
linux-embedded-hal = "*"
prometheus_exporter = "*"
serde = { version = "1", features = ["derive"] }
serde_yaml = "*"
slog = "2"
slog-scope = "4"
slog-stdlog = "4"
slog-syslog = "*"
slog-term = "2"
structdoc = "*"
veml6030 = "*"
