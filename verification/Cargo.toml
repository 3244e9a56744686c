[package]
name = "rrss"
version = "0.1.0"
edition = "2021"
publish = false

[dependencies]
anyhow = "1"
clap = { version = "4", features = ["derive"] }
clipboard = "0.5"
color-eyre = "0.6"
colored = "2"
crossterm = "0.28"
html-escape = "0.2"
log = "0.4"
log4rs = "1"
open = "5"
ratatui = "0.29"
regex = "1"
reqwest = "0.12"
serde = { version = "1", features = ["derive"] }
serde-xml-rs = "0.6"
tempfile = "3"
tokio = { version = "1", features = ["full"] }
toml = "0.8"
tui-textarea = "0.7"
