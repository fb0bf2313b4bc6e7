[package]
name = "jobdash"
version = "0.1.0"
edition = "2021"
publish = false

[dependencies]
serde = { version = "1.0", features = ["derive"] }
serde_derive = "1.0"
termion = "1.5"
toml = "0.5"
tui = { version = "0.19", default-features = false, features = ["termion"] }
