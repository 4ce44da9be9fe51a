[package]
name = "s3_browser"
version = "0.1.0"
edition = "2021"
publish = false

[dependencies]
serde_json = "*"
textwrap = "*"
aws-config = "*"
aws-sdk-s3 = "*"
tokio = { version = "*", features = ["full"] }
ratatui = "*"
crossterm = "*"
dirs = "*"
