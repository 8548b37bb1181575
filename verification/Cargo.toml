[package]
name = "railq"
version = "0.1.0"
edition = "2021"
publish = false

[dependencies]
crossterm = "*"
fs4 = "*"
ratatui = "*"
ron = "*"
rusqlite = { version = "*", features = ["bundled"] }
serde = { version = "*", features = ["derive"] }
unicode-width = "*"
uuid = { version = "*", features = ["v4"] }
