[package]
name = "reef_tui"
version = "0.1.0"
edition = "2021"
publish = false

[dependencies]
unicode-width = "=0.2.3"
crossterm = "=0.29.0"
ratatui = "=0.30.2"
ratatui-image = { version = "=11.1.0", default-features = false, features = ["crossterm"] }

[dev-dependencies]
tempfile = "=3.27.0"
