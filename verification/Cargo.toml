[package]
name = "slsk"
version = "0.1.0"
edition = "2021"
publish = false

[dependencies]
md-5 = "0.10"
flate2 = "1"
byte-unit = "5"
num-format = "0.4"
tokio = { version = "1", features = ["full"] }
serde = { version = "1", features = ["derive"] }
toml = "0.8"
chrono = "0.4"
crossterm = "0.28"
ratatui = "0.29"
tui-input = "0.11"
socket2 = "0.5"
rand = "0.8"
