[package]
name = "gitchange_tui"
version = "0.1.0"
edition = "2021"
publish = false

[dependencies]
ratatui = "0.29"
crossbeam-channel = "0.5"
thiserror = "2"
