[package]
name = "dlsite_gamebox"
version = "0.3.0"
edition = "2021"
publish = false

[dependencies]
chrono = "0.4"
futures = "0.3"
rayon = "1"
reqwest = { version = "0.12", default-features = false }
scraper = "*"
serde = { version = "1", features = ["derive"] }
serde_ignored = "0.1"
serde_json = "1"
serde_path_to_error = "0.1"
serde_repr = "0.1"
serde_with = "3"
strum = { version = "0.26", features = ["derive"] }
thiserror = "2"
tokio = { version = "1", features = ["macros", "rt-multi-thread", "time"] }
tracing = "0.1"
