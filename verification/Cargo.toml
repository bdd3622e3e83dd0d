[package]
name = "snake_rs"
version = "1.0.0"
edition = "2021"
publish = false

[dependencies]
rand = "0.9"
crossterm = "*"
ratatui = "*"
clap = { version = "4", features = ["derive"] }
