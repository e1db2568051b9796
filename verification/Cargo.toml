[package]
name = "space_time_rewind"
version = "0.1.0"
edition = "2021"
publish = false

[dependencies]
anyhow = "1"
crossterm = "0.25"
tui = "0.19"
