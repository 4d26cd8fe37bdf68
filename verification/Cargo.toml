[package]
name = "fitui"
version = "0.1.0"
edition = "2021"
publish = false

[dependencies]
chrono = "*"
crossterm = "*"
directories = "*"
ratatui = "*"
rusqlite = { version = "*", features = ["bundled"] }
