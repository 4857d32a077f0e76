[package]
name = "ui_state"
version = "0.1.0"
edition = "2021"
publish = false

[dependencies]
tui = { version = "*", default-features = false }
