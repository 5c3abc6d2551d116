[package]
name = "ollama-tui"
version = "0.1.0"
edition = "2021"
publish = false

[dependencies]
anyhow = "1"
chrono = "0.4"
crossterm = "*"
directories = "*"
futures-util = "0.3"
ratatui = "*"
regex = "1"
reqwest = { version = "*", default-features = false, features = ["json", "stream"] }
rusqlite = { version = "*", features = ["bundled"] }
serde = { version = "1", features = ["derive"] }
serde_json = "1"
textwrap = "*"
tokio = { version = "1", features = ["rt-multi-thread", "macros", "sync", "process", "time"] }
unicode-width = "*"
