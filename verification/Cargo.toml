[package]
name = "term_notes"
version = "0.1.0"
edition = "2021"
publish = false

[dependencies]
crossterm = "0.28"
ratatui = "0.29"
serde = { version = "1", features = ["derive"] }
serde_json = "1"
tui-input = { version = "*", default-features = false }
tui-textarea = "0.7"
