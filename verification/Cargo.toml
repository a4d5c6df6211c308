[package]
name = "tui_core"
version = "0.1.0"
edition = "2021"
publish = false

[dependencies]
crossterm = "=0.29.0"
tui = "=0.19.0"
unicode-width = "=0.1.14"
