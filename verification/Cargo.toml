[package]
name = "tui_files"
version = "0.1.0"
edition = "2021"
publish = false

[dependencies]
byte-unit = "5"
crossterm = "0.28"
ratatui = "0.29"
