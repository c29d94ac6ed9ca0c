[package]
name = "steam_2_discord"
version = "0.1.0"
edition = "2021"
publish = false

[dependencies]
discord-rich-presence = "*"
chrono = "*"
reqwest = { version = "*", default-features = false, features = ["json"] }
serde_json = "*"
clap = { version = "*", features = ["derive"] }
tokio = { version = "*", features = ["rt-multi-thread"] }
thistermination = "*"
