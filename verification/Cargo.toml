[package]
name = "leptos_tui"
version = "0.1.0"
edition = "2021"
publish = false

[dependencies]
crossterm = "=0.29.0"
textwrap = "=0.16.4"
leptos_reactive = { version = "=0.3.1", features = ["stable"] }
