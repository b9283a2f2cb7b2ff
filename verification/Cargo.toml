[package]
name = "ezgit_rs"
version = "0.1.0"
edition = "2021"
publish = false

[dependencies]
git2 = { version = "*", default-features = false }
chrono = "*"
crossterm = "*"
ratatui = "*"
log = "*"
simplelog = "*"
dotenv = "*"
