[package]
name = "trui"
version = "0.1.0"
edition = "2021"
publish = false

[dependencies]
unicode-width = "0.1"
unicode-segmentation = "1"
ratatui = "0.23"
crossterm = "0.27"
xilem_core = "*"
kurbo = "*"
taffy = "0.3"
tokio = { version = "1", features = ["full"] }
futures-util = "0.3"
futures-task = "0.3"
bitflags = "2"
tracing = "0.1"
tracing-subscriber = "0.3"
tracing-appender = "0.2"
anyhow = "1"
directories = "5"
