[package]
name = "docsoc_clickup_calendar_sync"
version = "0.1.0"
edition = "2021"
publish = false

[dependencies]
chrono = "0.4"
diesel = { version = "2", features = ["postgres"] }
diesel_migrations = "2"
dotenvy = "0.15"
env_logger = "*"
futures = "0.3"
governor = "*"
ical = "*"
log = "0.4"
reqwest = { version = "0.12", features = ["blocking", "json"] }
serde = { version = "1", features = ["derive"] }
