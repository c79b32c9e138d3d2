[package]
name = "kuber_rs"
version = "0.1.0"
edition = "2021"
publish = false

[dependencies]
clap = { version = "4", features = ["derive"] }
crossterm = "0.25"
textwrap = "0.16"
thiserror = "1"
tui = "0.19"
