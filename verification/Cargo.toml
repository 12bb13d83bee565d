[package]
name = "seeker"
version = "0.1.0"
edition = "2021"
publish = false

[dependencies]
rusqlite = { version = "*", features = ["bundled"] }
chrono = "*"
serde = { version = "*", features = ["derive"] }
toml = "*"
enum_from_derive = "*"
