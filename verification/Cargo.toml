[package]
name = "webhooky"
version = "0.1.0"
edition = "2021"
publish = false

[dependencies]
anyhow = "=1.0.104"
chrono = { version = "=0.4.45", default-features = false, features = ["clock", "serde", "std"] }
http = "=1.5.0"
log = "=0.4.34"
reqwest = { version = "=0.13.5", default-features = false, features = ["json", "query"] }
schemars = { version = "=0.8.22", features = ["chrono"] }
sentry = { version = "=0.49.3", default-features = false, features = ["anyhow", "release-health"] }
serde = { version = "=1.0.229", features = ["derive"] }
serde_json = "=1.0.154"
signal-hook = "=0.3.18"
slog = "=2.8.2"
steno = "=0.5.0"
tokio = { version = "=1.54.1", features = ["macros", "rt-multi-thread", "sync", "time"] }
uuid = { version = "=1.29.0", features = ["v4"] }
