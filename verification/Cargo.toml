[package]
name = "spotify_player"
version = "0.1.0"
edition = "2021"
publish = false

[dependencies]
anyhow = "=1.0.104"
fuzzy-matcher = "=0.3.7"
log = "=0.4.34"
parking_lot = "=0.12.5"
reqwest = { version = "=0.11.27", features = ["json"] }
rspotify = "0.16"
serde = { version = "=1.0.229", features = ["derive"] }
tokio = { version = "=1.54.1", features = ["macros", "rt-multi-thread"] }
tui = "=0.19.0"
