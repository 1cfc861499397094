[package]
name = "blueprint"
version = "0.1.0"
edition = "2021"
publish = false

[dependencies]
ratatui = "*"
crossterm = "*"
ratatui-textarea = "*"
serde = { version = "*", features = ["derive"] }
serde_json = "*"
color-eyre = "*"
strum = { version = "*", features = ["derive"] }
