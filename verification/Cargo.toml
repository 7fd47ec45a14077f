[package]
name = "openlid"
version = "2.3.3"
edition = "2021"
publish = false

[dependencies]
chrono = "=0.4.45"
semver = "=1.0.28"
sha2 = "=0.10.9"
serde = { version = "=1.0.229", features = ["derive"] }
serde_json = "=1.0.154"
toml = "=1.1.8"
directories = "=6.0.0"
anyhow = "=1.0.104"
thiserror = "=2.0.21"
interprocess = "=2.4.7"
libc = "=0.2.191"
tracing = "=0.1.44"
tracing-subscriber = { version = "=0.3.23", features = ["env-filter"] }
tracing-appender = "=0.2.5"
ureq = "3"
