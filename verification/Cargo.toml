[package]
name = "cheese_locator"
version = "0.1.0"
edition = "2021"
publish = false

[dependencies]
ratatui = "*"
tui-big-text = "*"
mousefood = "*"
embedded-graphics = "*"
embedded-graphics-simulator = "*"
