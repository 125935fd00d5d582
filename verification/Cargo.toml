[package]
name = "anki_cli"
version = "0.1.0"
edition = "2021"
publish = false

[dependencies]
anki = "*"
clap = "2.33"
derive_more = "0.99"
dirs = "*"
serde = { version = "1", features = ["derive"] }
serde_json = "1"
slog = "2"
slog-async = "2"
slog-envlogger = "2"
slog-term = "2"
thiserror = "1"
