[package]
name = "collab_quotes"
version = "0.1.0"
edition = "2021"
publish = false

[dependencies]
anyhow = "1"
axum = { version = "*", features = ["ws"] }
chrono = "*"
futures-util = { version = "*", features = ["sink"] }
scraper = "*"
serde = { version = "1", features = ["derive"] }
serde_json = "1"
thirtyfour = "*"
tokio = { version = "1", features = ["macros", "rt-multi-thread", "time", "net"] }
tokio-tungstenite = "*"
