[package]
name = "slog_stdlog"
version = "0.1.0"
edition = "2021"
publish = false

[dependencies]
log = { version = "*", features = ["std"] }
slog = "*"
slog-scope = "*"
