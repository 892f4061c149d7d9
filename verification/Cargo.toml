[package]
name = "table_view"
version = "0.1.0"
edition = "2021"
publish = false

[dependencies]
polars = { version = "*", default-features = false }
ratatui = "0.29"
tui-textarea = "0.7"
