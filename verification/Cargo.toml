[package]
name = "pyro"
version = "0.1.0"
edition = "2021"
publish = false

[dependencies]
log = "0.4"
log4rs = { version = "1", default-features = false, features = ["console_appender", "file_appender", "pattern_encoder", "threshold_filter"] }
rusqlite = "*"
serde = { version = "1", features = ["derive"] }
serde_json = "1"
