[package]
name = "binge_rss"
version = "0.1.0"
edition = "2021"
publish = false

[dependencies]
chrono = "0.4"
feed-rs = "1"
url = "2"
reqwest = "0.11"
serde = { version = "1", features = ["derive"] }
serde_json = "1"
tokio = { version = "1", features = ["rt-multi-thread"] }
once_cell = "1"
gtk4 = "0.5"
libadwaita = { version = "0.2", features = ["v1_2"] }
