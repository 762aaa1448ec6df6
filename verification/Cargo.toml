[package]
name = "tuidal"
version = "0.1.0"
edition = "2021"
publish = false

[dependencies]
anyhow = "1"
crossterm = "0.28"
dirs = "5"
image = { version = "0.25", default-features = false, features = ["jpeg", "png"] }
open = "5"
ratatui = "0.29"
ratatui-image = { version = "8", default-features = false, features = ["crossterm"] }
reqwest = "0.12"
serde = { version = "1", features = ["derive"] }
serde_json = "1"
tokio = { version = "1", features = ["full"] }
